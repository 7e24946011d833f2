use vstd::prelude::*;
use crate::config::KeyConfig;

verus! {

/// The pane of a ticket's metadata, which holds nothing yet and draws nothing.
#[derive(Debug)]
pub struct TicketMetadataComponent {}

impl TicketMetadataComponent {
    pub fn new(_key_config: KeyConfig) -> (c: Self)
        ensures
            c == (TicketMetadataComponent {}),
    {
        Self {}
    }
}

} // verus!
