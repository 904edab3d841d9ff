//! Batch-mode configuration: named service entries grouped under
//! categories, each converted into a Shell job that seeds the queue.

use vstd::prelude::*;
use vstd::string::*;
use crate::ids;
use crate::lang::{language_of_name, Languages};
use crate::runner::{Runner, RunnerBuilder};
use crate::text::str_eq;

verus! {

/// One preconfigured service entry: the command to run and its restart
/// policy.
#[derive(Clone, Debug)]
pub struct Configuration {
    pub command: String,
    pub restart_on_panic: bool,
    pub restart_limit: Option<i8>,
}

impl Configuration {
    /// Converts the entry into a Shell-language request under a fresh
    /// identity.
    pub fn into_exec(self) -> (r: Runner)
        ensures
            r.source == self.command,
            r.language == Languages::Shell,
            r.nonce@.len() == 0,
            r.commandline_arguments@.len() == 0,
            r.standard_input@.len() == 0,
            r.executor is None,
    {
        proof {
            reveal_strlit("shell");
            crate::lang::lemma_language_name_round_trip(Languages::Shell);
            assert(language_of_name("shell"@) == Languages::Shell);
        }
        RunnerBuilder::new().source(self.command).language("shell").build(ids::fresh_id())
    }
}

/// One named group of service entries, keyed by service name.
pub struct ConfigurationGroup {
    pub name: String,
    pub services: Vec<(String, Runner)>,
}

impl ConfigurationGroup {
    /// Service names are unique within the group.
    pub open spec fn wf(self) -> bool {
        forall|i: int, j: int|
            0 <= i < j < self.services@.len() ==> (#[trigger] self.services@[i]).0@ != (
            #[trigger] self.services@[j]).0@
    }

    /// Whether the group holds a service under this name.
    pub open spec fn has_service(self, name: Seq<char>) -> bool {
        exists|i: int| 0 <= i < self.services@.len() && (#[trigger] self.services@[i]).0@ == name
    }

    /// An empty group under the given category name.
    pub fn new(name: &str) -> (r: Self)
        ensures
            r.name@ == name@,
            r.services@.len() == 0,
            r.wf(),
    {
        ConfigurationGroup { name: String::from_str(name), services: Vec::new() }
    }

    /// Adds the entry as a Shell request under `name`, replacing any
    /// entry already under that name.
    pub fn add_service(&mut self, name: &str, configuration: Configuration)
        requires
            old(self).wf(),
        ensures
            final(self).wf(),
            final(self).name == old(self).name,
            final(self).has_service(name@),
            exists|i: int|
                {
                    let entry = #[trigger] final(self).services@[i];
                    &&& 0 <= i < final(self).services@.len()
                    &&& entry.0@ == name@
                    &&& entry.1.source == configuration.command
                    &&& entry.1.language == Languages::Shell
                    &&& entry.1.nonce@.len() == 0
                    &&& entry.1.commandline_arguments@.len() == 0
                    &&& entry.1.standard_input@.len() == 0
                    &&& if old(self).has_service(name@) {
                        final(self).services@ == old(self).services@.update(i, entry)
                    } else {
                        i == old(self).services@.len() && final(self).services@ == old(
                            self,
                        ).services@.push(entry)
                    }
                },
    {
        let runner = configuration.into_exec();
        let n = self.services.len();
        let mut i: usize = 0;
        while i < n
            invariant
                *self == *old(self),
                old(self).wf(),
                runner.source == configuration.command,
                runner.language == Languages::Shell,
                runner.nonce@.len() == 0,
                runner.commandline_arguments@.len() == 0,
                runner.standard_input@.len() == 0,
                i <= n,
                n == self.services@.len(),
                forall|j: int| 0 <= j < i ==> (#[trigger] self.services@[j]).0@ != name@,
            decreases n - i,
        {
            if str_eq(self.services[i].0.as_str(), name) {
                let key = self.services[i].0.clone();
                self.services.set(i, (key, runner));
                proof {
                    let pre = old(self).services@;
                    let entry = self.services@[i as int];
                    assert(entry.0@ == name@);
                    assert forall|k: int|
                        0 <= k < self.services@.len() implies (#[trigger] self.services@[k]).0@
                        == pre[k].0@ by {
                        if k != i {
                            assert(self.services@[k] == pre[k]);
                        }
                    }
                    assert forall|a: int, b: int|
                        0 <= a < b < self.services@.len() implies (
                    #[trigger] self.services@[a]).0@ != (#[trigger] self.services@[b]).0@ by {
                        assert(pre[a].0@ != pre[b].0@);
                    }
                    assert(old(self).services@[i as int].0@ == name@);
                    assert(old(self).has_service(name@));
                    assert(self.services@ == pre.update(i as int, entry));
                }
                return ;
            }
            i = i + 1;
        }
        let key = String::from_str(name);
        self.services.push((key, runner));
        proof {
            let pre = old(self).services@;
            let m = self.services@.len() - 1;
            assert(self.services@[m].0@ == name@);
            assert forall|a: int, b: int|
                0 <= a < b < self.services@.len() implies (#[trigger] self.services@[a]).0@ != (
            #[trigger] self.services@[b]).0@ by {
                if b < m {
                    assert(self.services@[a] == pre[a]);
                    assert(self.services@[b] == pre[b]);
                    assert(pre[a].0@ != pre[b].0@);
                } else {
                    assert(self.services@[a] == pre[a]);
                    assert(pre[a].0@ != name@);
                }
            }
            assert(!old(self).has_service(name@));
            assert(self.services@ == pre.push(self.services@[m]));
        }
    }
}

} // verus!
