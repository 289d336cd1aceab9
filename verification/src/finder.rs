//! Sources that the runtime has found on the network.

use vstd::prelude::*;

verus! {

/// A source as the finder reports it: its name, and where to reach it when
/// the runtime knows that.
pub struct FindSource {
    pub name: String,
    pub url: Option<String>,
}

impl Clone for FindSource {
    /// Copies the source: the same name, and the same address or none.
    fn clone(&self) -> (copy: Self)
        ensures
            copy == *self,
    {
        FindSource {
            name: self.name.clone(),
            url: match &self.url {
                Some(url) => Some(url.clone()),
                None => None,
            },
        }
    }
}

} // verus!
