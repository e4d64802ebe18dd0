//! The set of workspaces whose language server has been launched, and so may
//! be asked to start a debug session. Entries are added, never removed.

use vstd::prelude::*;

verus! {

/// Workspace paths marked ready, each held once.
pub struct SessionRegistry {
    workspaces: Vec<String>,
}

impl View for SessionRegistry {
    type V = Set<Seq<char>>;

    closed spec fn view(&self) -> Set<Seq<char>> {
        self.workspaces@.map_values(|w: String| w@).to_set()
    }
}

impl SessionRegistry {
    /// A registry with no workspace marked ready.
    pub fn new() -> (r: Self)
        ensures
            r@ == Set::<Seq<char>>::empty(),
    {
        let r = SessionRegistry { workspaces: Vec::new() };
        assert(r.workspaces@.map_values(|w: String| w@) =~= Seq::<Seq<char>>::empty());
        assert(r@ =~= Set::<Seq<char>>::empty());
        r
    }

    /// Whether `workspace` has been marked ready.
    pub fn is_ready(&self, workspace: &str) -> (r: bool)
        ensures
            r == self@.contains(workspace@),
    {
        let target = String::from_str(workspace);
        let ghost names = self.workspaces@.map_values(|w: String| w@);
        let mut i: usize = 0;
        while i < self.workspaces.len()
            invariant
                i <= self.workspaces@.len(),
                target@ == workspace@,
                names == self.workspaces@.map_values(|w: String| w@),
                forall|k: int| 0 <= k < i ==> names[k] != workspace@,
            decreases self.workspaces@.len() - i,
        {
            if self.workspaces[i] == target {
                assert(names[i as int] == workspace@);
                assert(names.contains(workspace@));
                return true;
            }
            i = i + 1;
        }
        assert(!names.contains(workspace@));
        false
    }

    /// Marks `workspace` ready; marking it again changes nothing.
    pub fn mark_ready(&mut self, workspace: &str)
        ensures
            final(self)@ == old(self)@.insert(workspace@),
    {
        let ghost before = old(self).workspaces@.map_values(|w: String| w@);
        if !self.is_ready(workspace) {
            self.workspaces.push(String::from_str(workspace));
            let ghost after = self.workspaces@.map_values(|w: String| w@);
            assert(after =~= before.push(workspace@));
            assert forall|x: Seq<char>| after.contains(x) <==> before.contains(x) || x
                == workspace@ by {
                if before.contains(x) {
                    let k = choose|k: int| 0 <= k < before.len() && before[k] == x;
                    assert(after[k] == x);
                }
                if x == workspace@ {
                    assert(after[before.len() as int] == x);
                }
                if after.contains(x) {
                    let k = choose|k: int| 0 <= k < after.len() && after[k] == x;
                    if k < before.len() {
                        assert(before[k] == x);
                    }
                }
            }
        }
        assert(self@ =~= old(self)@.insert(workspace@));
    }
}

/// Once a workspace is marked ready it is reported ready, and marking one
/// workspace leaves every other workspace as it was.
pub proof fn lemma_mark_then_query(before: Set<Seq<char>>, marked: Seq<char>, other: Seq<char>)
    requires
        marked != other,
    ensures
        before.insert(marked).contains(marked),
        before.insert(marked).contains(other) == before.contains(other),
{
}

} // verus!
