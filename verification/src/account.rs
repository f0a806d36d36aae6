use vstd::prelude::*;

verus! {

/// A Stellar address, held as the bytes of its strkey encoding.
///
/// Two addresses are the same address exactly when their encodings are equal.
#[derive(Debug, PartialEq, Eq)]
pub struct Account {
    bytes: Vec<u8>,
}

impl View for Account {
    type V = Seq<u8>;

    closed spec fn view(&self) -> Seq<u8> {
        self.bytes@
    }
}

/// The encodings of a list of accounts, in order.
pub open spec fn accounts_view(s: Seq<Account>) -> Seq<Seq<u8>> {
    s.map_values(|a: Account| a@)
}

impl Account {
    /// The account whose strkey encoding is `bytes`.
    pub fn new(bytes: Vec<u8>) -> (a: Account)
        ensures
            a@ == bytes@,
    {
        Account { bytes }
    }

    /// The strkey encoding of this account.
    pub fn as_bytes(&self) -> (b: &[u8])
        ensures
            b@ == self@,
    {
        self.bytes.as_slice()
    }

    /// Whether `self` and `other` are the same address.
    pub fn same_as(&self, other: &Account) -> (r: bool)
        ensures
            r == (self@ == other@),
    {
        let n = self.bytes.len();
        if n != other.bytes.len() {
            return false;
        }
        let mut i: usize = 0;
        while i < n
            invariant
                n == self.bytes@.len(),
                n == other.bytes@.len(),
                i <= n,
                forall|j: int| 0 <= j < i ==> self.bytes@[j] == other.bytes@[j],
            decreases n - i,
        {
            if self.bytes[i] != other.bytes[i] {
                return false;
            }
            i = i + 1;
        }
        assert(self.bytes@ =~= other.bytes@);
        true
    }

    /// A second value of the same address.
    pub fn duplicate(&self) -> (r: Account)
        ensures
            r@ == self@,
    {
        let bytes = self.bytes.clone();
        assert(bytes@ =~= self.bytes@);
        Account { bytes }
    }
}

/// Where `a` first occurs in `list`, if it occurs at all.
pub fn position_in(list: &Vec<Account>, a: &Account) -> (r: Option<usize>)
    ensures
        match r {
            Some(i) => accounts_view(list@).index_of_first(a@) == Some(i as int),
            None => accounts_view(list@).index_of_first(a@) is None,
        },
{
    let ghost s = accounts_view(list@);
    let mut i: usize = 0;
    while i < list.len()
        invariant
            s == accounts_view(list@),
            i <= list@.len(),
            forall|j: int| 0 <= j < i ==> s[j] != a@,
        decreases list@.len() - i,
    {
        if list[i].same_as(a) {
            proof {
                assert(s[i as int] == a@);
                assert(s.contains(a@));
                s.index_of_first_ensures(a@);
                let k = s.index_of_first(a@).unwrap();
                assert(!(k < i));
                assert(!(i < k));
            }
            return Some(i);
        }
        i = i + 1;
    }
    proof {
        assert(!s.contains(a@));
        s.index_of_first_ensures(a@);
    }
    None
}

/// Whether `a` is among `signers`.
pub fn signed_by(signers: &Vec<Account>, a: &Account) -> (r: bool)
    ensures
        r == accounts_view(signers@).contains(a@),
{
    let pos = position_in(signers, a);
    proof {
        accounts_view(signers@).index_of_first_ensures(a@);
    }
    pos.is_some()
}

} // verus!
