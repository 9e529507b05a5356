use vstd::prelude::*;

verus! {

/// Drops the installed log writer, if any.
pub fn shutdown_logging<W>(slot: &mut Option<W>)
    ensures
        *final(slot) is None,
{
    *slot = None;
}

/// Installs `writer` as the log writer, first shutting down one that is
/// already installed.
pub fn setup_logging<W>(slot: &mut Option<W>, writer: W)
    ensures
        *final(slot) == Some(writer),
{
    if slot.is_some() {
        shutdown_logging(slot);
    }
    *slot = Some(writer);
}

} // verus!
