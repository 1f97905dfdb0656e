//! The revocation set: raw token strings invalidated before their expiry.

use vstd::prelude::*;

verus! {

/// The revocation store could not be reached or did not answer.
#[derive(Debug, Clone, Copy, PartialEq, Eq, Structural)]
pub enum StoreError {
    Unavailable,
}

/// A set of revoked raw token strings, each held once, in order of revocation.
#[derive(Debug)]
pub struct RevocationSet {
    tokens: Vec<String>,
}

impl View for RevocationSet {
    type V = Set<Seq<char>>;

    closed spec fn view(&self) -> Set<Seq<char>> {
        Set::new(|t: Seq<char>| exists|i: int| 0 <= i < self.tokens@.len() && #[trigger] self.tokens@[i]@ == t)
    }
}

/// The set reached from `s` by revoking each token of `ts` in turn.
pub open spec fn revoke_all(s: Set<Seq<char>>, ts: Seq<Seq<char>>) -> Set<Seq<char>>
    decreases ts.len(),
{
    if ts.len() == 0 {
        s
    } else {
        revoke_all(s.insert(ts[0]), ts.drop_first())
    }
}

impl RevocationSet {
    /// No token is held twice.
    pub closed spec fn wf(&self) -> bool {
        forall|i: int, j: int|
            0 <= i < self.tokens@.len() && 0 <= j < self.tokens@.len() && i != j
                ==> #[trigger] self.tokens@[i]@ != #[trigger] self.tokens@[j]@
    }

    /// An empty set.
    pub fn new() -> (r: RevocationSet)
        ensures
            r.wf(),
            r@ == Set::<Seq<char>>::empty(),
    {
        let r = RevocationSet { tokens: Vec::new() };
        proof {
            assert(r@ =~= Set::<Seq<char>>::empty());
        }
        r
    }

    fn position(&self, token: &String) -> (r: Option<usize>)
        ensures
            r matches Some(i) ==> i < self.tokens@.len() && self.tokens@[i as int]@ == token@,
            r is None ==> !self@.contains(token@),
    {
        let mut i: usize = 0;
        while i < self.tokens.len()
            invariant
                i <= self.tokens@.len(),
                forall|k: int| 0 <= k < i ==> self.tokens@[k]@ != token@,
            decreases self.tokens@.len() - i,
        {
            if self.tokens[i] == *token {
                return Some(i);
            }
            i = i + 1;
        }
        None
    }

    /// Whether `token` has been revoked.
    pub fn is_revoked(&self, token: &str) -> (r: bool)
        ensures
            r == self@.contains(token@),
    {
        let t = token.to_owned();
        match self.position(&t) {
            Some(i) => {
                proof {
                    assert(self.tokens@[i as int]@ == token@);
                }
                true
            },
            None => false,
        }
    }

    /// Records `token` as revoked. Revoking a token that is already revoked
    /// leaves the set exactly as it was.
    pub fn revoke(&mut self, token: &str)
        requires
            old(self).wf(),
        ensures
            final(self).wf(),
            final(self)@ == old(self)@.insert(token@),
            old(self)@.contains(token@) ==> *final(self) == *old(self),
    {
        let t = token.to_owned();
        match self.position(&t) {
            Some(i) => {
                proof {
                    assert(self@ =~= old(self)@.insert(token@));
                }
            },
            None => {
                let ghost before = self.tokens@;
                self.tokens.push(t);
                proof {
                    assert(self.tokens@[before.len() as int]@ == token@);
                    assert forall|x: Seq<char>| self@.contains(x) <==> old(self)@.insert(token@).contains(x) by {
                        if self@.contains(x) {
                            let i = choose|i: int| 0 <= i < self.tokens@.len() && #[trigger] self.tokens@[i]@ == x;
                            if i < before.len() {
                                assert(before[i]@ == x);
                            }
                        }
                        if old(self)@.contains(x) {
                            let i = choose|i: int| 0 <= i < before.len() && #[trigger] before[i]@ == x;
                            assert(self.tokens@[i]@ == x);
                        }
                    }
                    assert(self@ =~= old(self)@.insert(token@));
                }
            },
        }
    }
}

/// Revoking a token twice leaves the set as revoking it once does.
pub proof fn revoke_is_idempotent(s: Set<Seq<char>>, t: Seq<char>)
    ensures
        s.insert(t).insert(t) == s.insert(t),
{
    assert(s.insert(t).insert(t) =~= s.insert(t));
}

/// Once revoked, a token stays revoked whatever is revoked after it.
pub proof fn revoked_stays_revoked(s: Set<Seq<char>>, t: Seq<char>, later: Seq<Seq<char>>)
    ensures
        revoke_all(s.insert(t), later).contains(t),
    decreases later.len(),
{
    if later.len() > 0 {
        let s2 = s.insert(t).insert(later[0]);
        assert(s2 =~= s.insert(later[0]).insert(t));
        revoked_stays_revoked(s.insert(later[0]), t, later.drop_first());
    }
}

} // verus!
