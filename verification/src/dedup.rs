//! Hard-link deduplication: a set of (device, inode) pairs already counted.

use vstd::prelude::*;

verus! {

/// The identity of a filesystem object's storage node: hard links to one
/// object agree on this pair.
#[derive(Debug, Clone, Copy, PartialEq, Eq, Structural)]
pub struct InodeKey {
    /// Identifier of the device holding the object.
    pub dev: u64,
    /// Inode number on that device.
    pub ino: u64,
}

/// The set of inode keys observed so far in one traversal. It only ever
/// grows, and is discarded when the traversal completes.
#[derive(Debug)]
pub struct SeenInodes {
    keys: Vec<InodeKey>,
}

impl SeenInodes {
    /// The mathematical set of keys observed so far.
    pub closed spec fn view(&self) -> Set<InodeKey> {
        Set::new(|k: InodeKey| self.keys@.contains(k))
    }

    /// An empty set: nothing observed yet.
    pub fn new() -> (s: SeenInodes)
        ensures
            s@ == Set::<InodeKey>::empty(),
    {
        let s = SeenInodes { keys: Vec::new() };
        proof {
            assert(s@ =~= Set::<InodeKey>::empty());
        }
        s
    }

    /// Whether the key has been observed.
    fn contains_key(&self, key: InodeKey) -> (found: bool)
        ensures
            found == self@.contains(key),
    {
        let n = self.keys.len();
        let mut i: usize = 0;
        let mut found = false;
        while i < n
            invariant
                n == self.keys.len(),
                i <= n,
                found == exists|j: int| 0 <= j < i && self.keys@[j] == key,
            decreases n - i,
        {
            if self.keys[i] == key {
                found = true;
                proof {
                    assert(self.keys@[i as int] == key);
                }
            }
            i += 1;
        }
        proof {
            if found {
                assert(self.keys@.contains(key));
            } else {
                if self.keys@.contains(key) {
                    let j = choose|j: int| 0 <= j < self.keys@.len() && self.keys@[j] == key;
                    assert(0 <= j < n && self.keys@[j] == key);
                }
            }
        }
        found
    }

    /// Record the key and report whether this is its first occurrence:
    /// `true` means "not seen before, count the object", `false` means
    /// "already counted, skip it".
    pub fn observe(&mut self, dev: u64, ino: u64) -> (fresh: bool)
        ensures
            fresh == !old(self)@.contains(InodeKey { dev, ino }),
            final(self)@ == old(self)@.insert(InodeKey { dev, ino }),
    {
        let key = InodeKey { dev, ino };
        if self.contains_key(key) {
            proof {
                assert(old(self)@ =~= old(self)@.insert(key));
            }
            false
        } else {
            let ghost old_keys = self.keys@;
            self.keys.push(key);
            proof {
                broadcast use vstd::seq_lib::lemma_seq_contains_after_push;

                assert(self.keys@ == old_keys.push(key));
                assert(self@ =~= old(self)@.insert(key));
            }
            true
        }
    }
}

} // verus!
