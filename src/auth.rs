use vstd::prelude::*;

verus! {

/// Some input cell is guarded by a lock whose fingerprint is exactly `args`.
pub open spec fn owner_mode(args: Seq<u8>, input_locks: Seq<Seq<u8>>) -> bool {
    exists|i: int| 0 <= i < input_locks.len() && (#[trigger] input_locks[i]) == args
}

/// Byte-for-byte equality of a configured argument and a lock fingerprint;
/// an argument of any length other than 32 never matches.
fn fingerprint_matches(args: &[u8], lock: &[u8; 32]) -> (r: bool)
    ensures
        r == (lock@ == args@),
{
    let bytes = lock.as_slice();
    if args.len() != bytes.len() {
        return false;
    }
    let mut i: usize = 0;
    while i < args.len()
        invariant
            bytes@ == lock@,
            args@.len() == lock@.len(),
            i <= args@.len(),
            forall|j: int| 0 <= j < i ==> args@[j] == lock@[j],
        decreases args@.len() - i,
    {
        if args[i] != bytes[i] {
            assert(args@[i as int] != lock@[i as int]);
            return false;
        }
        i = i + 1;
    }
    assert(args@ =~= lock@);
    true
}

/// Whether the invocation runs in owner mode: the input locks are scanned in
/// order and the scan stops at the first whose fingerprint equals `args`.
pub fn check_owner_mode(args: &[u8], input_locks: &[[u8; 32]]) -> (r: bool)
    ensures
        r == owner_mode(args@, input_locks.deep_view()),
{
    let ghost locks = input_locks.deep_view();
    proof {
        assert forall|j: int| 0 <= j < locks.len() implies #[trigger] locks[j] == input_locks@[j]@ by {
            assert(locks[j] =~= input_locks@[j]@);
        }
    }
    let mut i: usize = 0;
    while i < input_locks.len()
        invariant
            i <= input_locks@.len(),
            locks.len() == input_locks@.len(),
            locks == input_locks.deep_view(),
            forall|j: int| 0 <= j < locks.len() ==> #[trigger] locks[j] == input_locks@[j]@,
            forall|j: int| 0 <= j < i ==> (#[trigger] locks[j]) != args@,
        decreases input_locks@.len() - i,
    {
        if fingerprint_matches(args, &input_locks[i]) {
            assert(locks[i as int] == args@);
            return true;
        }
        i = i + 1;
    }
    false
}

} // verus!
