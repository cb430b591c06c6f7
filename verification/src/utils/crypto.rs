//! The secret that clients of the control channel present.

use vstd::prelude::*;

verus! {

/// The length of the secret, in bytes.
pub const API_KEY_LEN: usize = 32;

/// The secret of one run of the daemon. It is made from fresh random
/// bytes when the daemon starts, lives in memory only, and ends with the
/// process.
pub struct ApiSecret {
    key: Vec<u8>,
}

impl View for ApiSecret {
    type V = Seq<u8>;

    closed spec fn view(&self) -> Seq<u8> {
        self.key@
    }
}

impl ApiSecret {
    /// Makes the secret from `key`, which the host filled with random
    /// bytes. A key of any length but [`API_KEY_LEN`] is refused.
    pub fn new(key: Vec<u8>) -> (secret: Option<ApiSecret>)
        ensures
            key@.len() == API_KEY_LEN ==> secret is Some && secret.unwrap()@ == key@,
            key@.len() != API_KEY_LEN ==> secret is None,
    {
        if key.len() == API_KEY_LEN {
            Some(ApiSecret { key })
        } else {
            None
        }
    }

    /// Whether `presented` is the secret. Every byte is looked at, whether
    /// or not an earlier one differed.
    pub fn matches(&self, presented: &[u8]) -> (same: bool)
        ensures
            same == (presented@ == self@),
    {
        if presented.len() != self.key.len() {
            return false;
        }
        let mut same = true;
        let mut i: usize = 0;
        while i < presented.len()
            invariant
                presented@.len() == self.key@.len(),
                0 <= i <= presented@.len(),
                same == (forall|k: int| 0 <= k < i ==> presented@[k] == self.key@[k]),
            decreases presented@.len() - i,
        {
            if presented[i] != self.key[i] {
                same = false;
            }
            i = i + 1;
        }
        assert(same == (presented@ =~= self.key@));
        same
    }
}

} // verus!
