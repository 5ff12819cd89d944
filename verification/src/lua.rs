//! The script module that a device runs.

use vstd::prelude::*;
use vstd::std_specs::convert::FromSpecImpl;
use vstd::string::StrSliceExecFns;

verus! {

/// A control script, as text, to be uploaded to a device.
#[derive(Debug)]
pub struct LJMLua {
    script: String,
}

impl Clone for LJMLua {
    fn clone(&self) -> (copy: Self)
        ensures
            copy@ == self@,
    {
        LJMLua { script: self.script.clone() }
    }
}

impl View for LJMLua {
    type V = Seq<char>;

    closed spec fn view(&self) -> Seq<char> {
        self.script@
    }
}

impl From<String> for LJMLua {
    fn from(val: String) -> (lua: LJMLua) {
        LJMLua { script: val }
    }
}

impl FromSpecImpl<String> for LJMLua {
    open spec fn obeys_from_spec() -> bool {
        true
    }

    closed spec fn from_spec(val: String) -> LJMLua {
        LJMLua { script: val }
    }
}

/// A module made from a string holds that string as its script.
pub proof fn lemma_from_string_keeps_script(val: String)
    ensures
        <LJMLua as vstd::std_specs::convert::FromSpec<String>>::from_spec(val)@ == val@,
{
}

impl LJMLua {
    /// The script's length in bytes.
    pub open spec fn spec_size(&self) -> usize {
        vstd::utf8::encode_utf8(self@).len() as usize
    }

    /// A module that holds `module` as its script.
    pub fn new(module: &str) -> (lua: Self)
        ensures
            lua@ == module@,
    {
        LJMLua { script: String::from_str(module) }
    }

    /// The script's length in bytes.
    pub fn size(&self) -> (size: usize)
        ensures
            size == self.spec_size(),
    {
        self.script.as_str().len()
    }

    /// The script's bytes.
    pub open spec fn spec_bytes(&self) -> Seq<u8> {
        vstd::utf8::encode_utf8(self@)
    }

    /// The script's bytes.
    pub fn bytes(&self) -> (bytes: Vec<u8>)
        ensures
            bytes@ == self.spec_bytes(),
    {
        self.script.as_str().as_bytes_vec()
    }

    /// A copy of the script.
    pub fn script(&self) -> (script: String)
        ensures
            script@ == self@,
    {
        self.script.clone()
    }
}

} // verus!
