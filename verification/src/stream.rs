//! What the session remembers of a running stream.

use vstd::prelude::*;

verus! {

/// The number of values that one read of a stream brings: one per address for
/// each scan.
pub open spec fn read_length(scans_per_read: int, addresses: int) -> int {
    scans_per_read * addresses
}

/// Whether a stream can be started with these settings: a positive number of
/// scans per read, a number of addresses that the device library can be told,
/// and a read that fits a buffer.
pub open spec fn admissible(scans_per_read: i32, addresses: nat) -> bool {
    &&& scans_per_read > 0
    &&& addresses <= i32::MAX
    &&& read_length(scans_per_read as int, addresses as int) <= usize::MAX
}

/// The settings of a stream, as contracts speak of them.
pub struct StreamSettings {
    /// The number of scans that one read brings.
    pub scans_per_read: i32,
    /// The register addresses, in the order of the columns of a scan.
    pub scan_list: Seq<i32>,
}

/// The settings that a stream was started with.
#[derive(Debug)]
pub struct LJMStream {
    scans_per_read: i32,
    scan_list: Vec<i32>,
}

impl View for LJMStream {
    type V = StreamSettings;

    closed spec fn view(&self) -> StreamSettings {
        StreamSettings { scans_per_read: self.scans_per_read, scan_list: self.scan_list@ }
    }
}

impl Clone for LJMStream {
    fn clone(&self) -> (copy: Self)
        ensures
            copy@ == self@,
    {
        proof {
            use_type_invariant(self);
        }
        let scan_list = self.scan_list.clone();
        assert(scan_list@ =~= self.scan_list@);
        LJMStream { scans_per_read: self.scans_per_read, scan_list }
    }
}

impl LJMStream {
    #[verifier::type_invariant]
    spec fn settings_admissible(&self) -> bool {
        admissible(self.scans_per_read, self.scan_list@.len())
    }

    /// The number of values that one read of this stream brings.
    pub open spec fn spec_read_length(&self) -> int {
        read_length(self@.scans_per_read as int, self@.scan_list.len() as int)
    }

    /// Whether a stream can be started with these settings.
    pub fn admits(scans_per_read: i32, addresses: usize) -> (admitted: bool)
        ensures
            admitted == admissible(scans_per_read, addresses as nat),
    {
        if scans_per_read <= 0 || addresses > i32::MAX as usize {
            return false;
        }
        let scans: usize = scans_per_read as usize;
        assert(scans * addresses == read_length(scans_per_read as int, addresses as int));
        scans.checked_mul(addresses).is_some()
    }

    /// The record of a stream with these settings.
    pub fn new(scans_per_read: i32, scan_list: Vec<i32>) -> (stream: Self)
        requires
            admissible(scans_per_read, scan_list@.len()),
        ensures
            stream@ == (StreamSettings { scans_per_read, scan_list: scan_list@ }),
    {
        LJMStream { scans_per_read, scan_list }
    }

    /// The number of scans that one read brings.
    pub fn scans_per_read(&self) -> (scans: i32)
        ensures
            scans == self@.scans_per_read,
            scans > 0,
    {
        proof {
            use_type_invariant(self);
        }
        self.scans_per_read
    }

    /// The register addresses, in the order of the columns of a scan.
    pub fn scan_list(&self) -> (addresses: &Vec<i32>)
        ensures
            addresses@ == self@.scan_list,
    {
        &self.scan_list
    }

    /// The number of values that one read of this stream brings.
    pub fn read_length(&self) -> (length: usize)
        ensures
            length == self.spec_read_length(),
    {
        proof {
            use_type_invariant(self);
        }
        let scans: usize = self.scans_per_read as usize;
        let addresses: usize = self.scan_list.len();
        assert(scans * addresses == read_length(
            self.scans_per_read as int,
            self.scan_list@.len() as int,
        ));
        scans * addresses
    }
}

} // verus!
