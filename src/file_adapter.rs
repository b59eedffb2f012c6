use vstd::prelude::*;

verus! {

/// Sends and receives transaction slates through files. It has no state:
/// the host performs the reads and writes.
#[derive(Clone, Copy, PartialEq, Eq, Structural, Debug)]
pub struct FileWalletCommAdapter {}

impl FileWalletCommAdapter {
    pub fn new() -> (r: FileWalletCommAdapter)
        ensures
            r == (FileWalletCommAdapter {}),
    {
        FileWalletCommAdapter {}
    }

    /// Files are exchanged asynchronously only.
    pub fn supports_sync(&self) -> (r: bool)
        ensures
            !r,
    {
        false
    }
}

} // verus!
