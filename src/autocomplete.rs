//! The address prompt's completion logic over the history accessor.
use vstd::prelude::*;
use crate::access::{settled, AccessErr, PrevIpAccessor};
use crate::schema::StoreError;

verus! {

/// Suggests previously used addresses and records the one that is chosen.
pub struct PrevIpAutocomplete {
    prev_ip_acc: PrevIpAccessor,
}

impl Clone for PrevIpAutocomplete {
    fn clone(&self) -> (r: Self) {
        PrevIpAutocomplete { prev_ip_acc: self.prev_ip_acc.clone() }
    }
}

/// The completion made from the outcome of recording the typed address.
pub open spec fn completed(res: Result<String, AccessErr<StoreError>>) -> Result<Option<String>, AccessErr<StoreError>> {
    match res {
        Ok(a) => Ok(Some(a)),
        Err(e) => Err(e),
    }
}

impl PrevIpAutocomplete {
    /// The accessor that this completion asks.
    pub closed spec fn accessor(&self) -> PrevIpAccessor {
        self.prev_ip_acc
    }

    /// A completion that asks `prev_ip_acc`; nothing is sent.
    pub fn new(prev_ip_acc: PrevIpAccessor) -> (r: Self)
        ensures
            r.accessor() == prev_ip_acc,
    {
        Self { prev_ip_acc }
    }

    /// The stored addresses that contain `input`, asked of the accessor with
    /// `get_prev_ips`; the outcome depends on the actor.
    pub fn get_suggestions(&self, input: &str) -> (r: Result<Vec<String>, AccessErr<StoreError>>)
        ensures
            exists|sent: bool, reply: Option<Result<Vec<String>, StoreError>>| r == settled(sent, reply),
    {
        self.prev_ip_acc.get_prev_ips(input.to_owned())
    }

    /// The completion of `input`: the highlighted suggestion when there is one
    /// (nothing is recorded then); otherwise `input` is recorded as used and
    /// becomes the completion.
    pub fn get_completion(&self, input: &str, highlighted_suggestion: Option<String>) -> (r: Result<
        Option<String>,
        AccessErr<StoreError>,
    >)
        ensures
            highlighted_suggestion matches Some(s) ==> r == Ok::<Option<String>, AccessErr<StoreError>>(Some(s)),
            highlighted_suggestion is None ==> exists|sent: bool, reply: Option<Result<String, StoreError>>|
                r == completed(#[trigger] settled(sent, reply)),
    {
        match highlighted_suggestion {
            Some(s) => Ok(Some(s)),
            None => match self.prev_ip_acc.add_address(input.to_owned()) {
                Ok(a) => Ok(Some(a)),
                Err(e) => Err(e),
            },
        }
    }
}

} // verus!
