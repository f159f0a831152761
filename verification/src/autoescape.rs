//! The intern table for custom autoescape mode names. A mode name is bound to
//! a stable token on first use; later lookups of the same name return the same
//! token. Entries are never evicted: the set of distinct custom mode names in
//! a process is expected to be small and fixed. The process-wide lock around
//! the one shared table lives outside the library.

use vstd::prelude::*;
use vstd::string::StringExecFns;

verus! {

/// An interned marker selecting an output-escaping policy: the position of
/// its mode name in the owning intern table. Tokens handed out by one table
/// compare equal exactly when they intern the same name.
#[derive(Clone, Copy, Debug, PartialEq, Eq, Structural)]
pub struct AutoEscapeToken {
    pub id: usize,
}

/// The intern table: one entry per distinct custom mode name, in first-use
/// order, growing monotonically.
pub struct AutoEscapeCache {
    pub names: Vec<String>,
}

impl AutoEscapeCache {
    /// No name is interned twice.
    pub open spec fn wf(&self) -> bool {
        forall|i: int, j: int|
            0 <= i < j < self.names@.len() ==> self.names@[i]@ != self.names@[j]@
    }

    pub open spec fn spec_has_name(&self, name: Seq<char>) -> bool {
        exists|i: int| 0 <= i < self.names@.len() && self.names@[i]@ == name
    }

    pub fn new() -> (r: AutoEscapeCache)
        ensures
            r.names@.len() == 0,
            r.wf(),
    {
        AutoEscapeCache { names: Vec::new() }
    }

    /// Looks the mode name up; when it is absent, interns it. The returned
    /// token is bound to the name, existing entries never move, and at most
    /// one entry is added.
    pub fn get_custom_autoescape(&mut self, value: &str) -> (t: AutoEscapeToken)
        requires
            old(self).wf(),
        ensures
            final(self).wf(),
            t.id < final(self).names@.len(),
            final(self).names@[t.id as int]@ == value@,
            forall|i: int|
                0 <= i < old(self).names@.len() ==> final(self).names@[i] == old(self).names@[i],
            old(self).spec_has_name(value@) ==> final(self).names@ == old(self).names@,
            !old(self).spec_has_name(value@) ==> final(self).names@.len() == old(
                self,
            ).names@.len() + 1,
    {
        let needle = String::from_str(value);
        let n = self.names.len();
        let mut i: usize = 0;
        while i < n
            invariant
                n == self.names@.len(),
                i <= n,
                self.wf(),
                needle@ == value@,
                forall|j: int| 0 <= j < i ==> self.names@[j]@ != value@,
            decreases n - i,
        {
            if self.names[i] == needle {
                return AutoEscapeToken { id: i };
            }
            i = i + 1;
        }
        self.names.push(needle);
        AutoEscapeToken { id: n }
    }
}

/// Idempotence of the token lookup: two tokens that one well-formed table
/// binds to the same mode name compare equal. Together with the lookup's
/// contract this says that looking one name up twice yields equal tokens.
pub proof fn lemma_same_name_same_token(
    c: AutoEscapeCache,
    name: Seq<char>,
    t1: AutoEscapeToken,
    t2: AutoEscapeToken,
)
    requires
        c.wf(),
        t1.id < c.names@.len(),
        c.names@[t1.id as int]@ == name,
        t2.id < c.names@.len(),
        c.names@[t2.id as int]@ == name,
    ensures
        t1 == t2,
{
    if t1.id < t2.id {
        assert(c.names@[t1.id as int]@ != c.names@[t2.id as int]@);
    }
    if t2.id < t1.id {
        assert(c.names@[t2.id as int]@ != c.names@[t1.id as int]@);
    }
}

/// Tokens bound to two different mode names compare unequal.
pub proof fn lemma_distinct_names_distinct_tokens(
    c: AutoEscapeCache,
    n1: Seq<char>,
    n2: Seq<char>,
    t1: AutoEscapeToken,
    t2: AutoEscapeToken,
)
    requires
        t1.id < c.names@.len(),
        c.names@[t1.id as int]@ == n1,
        t2.id < c.names@.len(),
        c.names@[t2.id as int]@ == n2,
        n1 != n2,
    ensures
        t1 != t2,
{
}

} // verus!
