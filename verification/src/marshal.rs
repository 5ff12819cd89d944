//! What is handed to the entry points of the device library, and how the
//! text that they bring back is read.

use crate::error::{failure, LJMError};
use crate::handle::{
    lemma_connection_type_name_plain, lemma_device_type_name_plain, ConnectionType, DeviceType,
};
use crate::library::LJMLibrary;
use crate::text::is_plain;
use vstd::prelude::*;
use vstd::string::StrSliceExecFns;
use vstd::utf8::{decode_utf8, valid_utf8};

verus! {

/// The size of the buffer into which the device library writes the text of a
/// status. The library promises not to write more.
pub const ERROR_STRING_SIZE: usize = 256;

/// The entry points of the device library that this layer calls.
#[derive(Clone, Copy, Debug, PartialEq, Eq, Structural)]
pub enum EntryPoint {
    /// Renders a status as text.
    ErrorToString,
    /// Resolves a register name to its address and type.
    NameToAddress,
    /// Writes a register by name.
    WriteName,
    /// Writes a register by address.
    WriteAddress,
    /// Writes a byte array to a register by name.
    WriteNameByteArray,
    /// Reads a byte array from a register by name.
    ReadNameByteArray,
    /// Reads a register by name.
    ReadName,
    /// Reads a register by address.
    ReadAddress,
    /// Opens a device.
    Open,
    /// Closes a device.
    Close,
    /// Closes every device.
    CloseAll,
    /// Writes a numeric address in dotted form.
    NumberToIp,
    /// Tells about an open handle.
    GetHandleInfo,
    /// Starts a stream.
    StreamStart,
    /// Stops a stream.
    StreamStop,
    /// Reads the scans of a stream.
    StreamRead,
    /// Writes a setting of the device library.
    WriteLibraryConfig,
    /// Reads a setting of the device library.
    ReadLibraryConfig,
}

impl EntryPoint {
    /// The name under which the device library exports the entry point.
    pub open spec fn name(self) -> Seq<char> {
        match self {
            EntryPoint::ErrorToString => "LJM_ErrorToString"@,
            EntryPoint::NameToAddress => "LJM_NameToAddress"@,
            EntryPoint::WriteName => "LJM_eWriteName"@,
            EntryPoint::WriteAddress => "LJM_eWriteAddress"@,
            EntryPoint::WriteNameByteArray => "LJM_eWriteNameByteArray"@,
            EntryPoint::ReadNameByteArray => "LJM_eReadNameByteArray"@,
            EntryPoint::ReadName => "LJM_eReadName"@,
            EntryPoint::ReadAddress => "LJM_eReadAddress"@,
            EntryPoint::Open => "LJM_OpenS"@,
            EntryPoint::Close => "LJM_Close"@,
            EntryPoint::CloseAll => "LJM_CloseAll"@,
            EntryPoint::NumberToIp => "LJM_NumberToIP"@,
            EntryPoint::GetHandleInfo => "LJM_GetHandleInfo"@,
            EntryPoint::StreamStart => "LJM_eStreamStart"@,
            EntryPoint::StreamStop => "LJM_eStreamStop"@,
            EntryPoint::StreamRead => "LJM_eStreamRead"@,
            EntryPoint::WriteLibraryConfig => "LJM_WriteLibraryConfigS"@,
            EntryPoint::ReadLibraryConfig => "LJM_ReadLibraryConfigS"@,
        }
    }

    /// The name under which the device library exports the entry point.
    pub fn symbol(&self) -> (symbol: String)
        ensures
            symbol@ == self.name(),
    {
        match self {
            EntryPoint::ErrorToString => String::from_str("LJM_ErrorToString"),
            EntryPoint::NameToAddress => String::from_str("LJM_NameToAddress"),
            EntryPoint::WriteName => String::from_str("LJM_eWriteName"),
            EntryPoint::WriteAddress => String::from_str("LJM_eWriteAddress"),
            EntryPoint::WriteNameByteArray => String::from_str("LJM_eWriteNameByteArray"),
            EntryPoint::ReadNameByteArray => String::from_str("LJM_eReadNameByteArray"),
            EntryPoint::ReadName => String::from_str("LJM_eReadName"),
            EntryPoint::ReadAddress => String::from_str("LJM_eReadAddress"),
            EntryPoint::Open => String::from_str("LJM_OpenS"),
            EntryPoint::Close => String::from_str("LJM_Close"),
            EntryPoint::CloseAll => String::from_str("LJM_CloseAll"),
            EntryPoint::NumberToIp => String::from_str("LJM_NumberToIP"),
            EntryPoint::GetHandleInfo => String::from_str("LJM_GetHandleInfo"),
            EntryPoint::StreamStart => String::from_str("LJM_eStreamStart"),
            EntryPoint::StreamStop => String::from_str("LJM_eStreamStop"),
            EntryPoint::StreamRead => String::from_str("LJM_eStreamRead"),
            EntryPoint::WriteLibraryConfig => String::from_str("LJM_WriteLibraryConfigS"),
            EntryPoint::ReadLibraryConfig => String::from_str("LJM_ReadLibraryConfigS"),
        }
    }
}

/// Whether `bytes` holds a zero byte, which ends text in the device library.
pub open spec fn has_nul(bytes: Seq<u8>) -> bool {
    exists|i: int| 0 <= i < bytes.len() && bytes[i] == 0
}

/// Whether `position` is where the text in `bytes` ends: at the first zero
/// byte, or at the end where there is none.
pub open spec fn is_text_end(bytes: Seq<u8>, position: int) -> bool {
    &&& 0 <= position <= bytes.len()
    &&& forall|i: int| 0 <= i < position ==> bytes[i] != 0
    &&& position < bytes.len() ==> bytes[position] == 0
}

/// The length of the text in `bytes`: the number of bytes before the first
/// zero byte, or all of them where there is none.
pub open spec fn text_length(bytes: Seq<u8>) -> int {
    choose|position: int| is_text_end(bytes, position)
}

/// The text in `bytes`: what stands before the first zero byte.
pub open spec fn c_text(bytes: Seq<u8>) -> Seq<u8> {
    bytes.subrange(0, text_length(bytes))
}

/// Text ends in one place only.
pub proof fn lemma_text_end_unique(bytes: Seq<u8>, position: int)
    requires
        is_text_end(bytes, position),
    ensures
        text_length(bytes) == position,
{
    let chosen = text_length(bytes);
    assert(is_text_end(bytes, chosen));
    if chosen < position {
        assert(bytes[chosen] == 0);
    } else if position < chosen {
        assert(bytes[position] == 0);
    }
}

/// Why `bytes` is no UTF-8, in the words of the standard library.
pub uninterp spec fn utf8_error_text(bytes: Seq<u8>) -> Seq<char>;

/// `std::str::from_utf8`, with the text copied out and the error rendered
/// through its `Display`. Claims that the call succeeds exactly on valid
/// UTF-8 and then gives the characters that the bytes encode, and gives the
/// error's words a name.
#[verifier::external_body]
fn decode_text(bytes: &[u8]) -> (text: Result<String, String>)
    ensures
        match text {
            Ok(decoded) => valid_utf8(bytes@) && decoded@ == decode_utf8(bytes@),
            Err(reason) => !valid_utf8(bytes@) && reason@ == utf8_error_text(bytes@),
        },
{
    match std::str::from_utf8(bytes) {
        Ok(text) => Ok(text.to_string()),
        Err(error) => Err(format!("{}", error)),
    }
}

/// Where the text in `bytes` ends.
pub fn text_end(bytes: &[u8]) -> (position: usize)
    ensures
        is_text_end(bytes@, position as int),
        position == text_length(bytes@),
{
    let mut position: usize = 0;
    while position < bytes.len() && bytes[position] != 0
        invariant
            position <= bytes.len(),
            forall|i: int| 0 <= i < position ==> bytes@[i] != 0,
        decreases bytes.len() - position,
    {
        position = position + 1;
    }
    proof {
        lemma_text_end_unique(bytes@, position as int);
    }
    position
}

/// Makes text ready for the device library: the same bytes with a zero byte
/// after them.
///
/// Fails with `CStringConversionFailed` exactly where the text itself holds a
/// zero byte.
pub fn c_string(text: Vec<u8>) -> (marshalled: Result<Vec<u8>, LJMError>)
    ensures
        match marshalled {
            Ok(bytes) => !has_nul(text@) && bytes@ == text@.push(0),
            Err(error) => has_nul(text@) && error is CStringConversionFailed,
        },
{
    let end = text_end(text.as_slice());
    if end < text.len() {
        return Err(LJMError::CStringConversionFailed);
    }
    let mut bytes = text;
    bytes.push(0);
    Ok(bytes)
}

/// Plain text holds no zero byte once it is encoded.
pub proof fn lemma_plain_text_holds_no_nul(chars: Seq<char>)
    requires
        is_plain(chars),
    ensures
        !has_nul(vstd::utf8::encode_utf8(chars)),
{
    let bytes = vstd::utf8::encode_utf8(chars);
    assert(vstd::utf8::is_ascii_chars(chars));
    vstd::utf8::is_ascii_chars_encode_utf8(chars);
    assert forall|i: int| 0 <= i < bytes.len() implies bytes[i] != 0 by {
        assert(chars[i] as u8 == bytes[i]);
        assert('\u{1}' <= chars[i] <= '\u{7f}');
    }
}

/// The text for the three arguments of opening a device.
pub struct OpenArguments {
    pub device_type: Vec<u8>,
    pub connection_type: Vec<u8>,
    pub identifier: Vec<u8>,
}

/// A buffer for the device library to write a dotted address into, and what
/// stands in it beforehand.
pub open spec fn ip_template() -> Seq<u8> {
    "000.000.000.000"@.map_values(|c: char| c as u8).push(0)
}

impl LJMLibrary {
    /// What opening a device hands to the device library: the names of the
    /// device type and of the connection type, and the identifier, each as
    /// text for the library.
    ///
    /// Fails with `CStringConversionFailed` exactly where the identifier
    /// holds a zero byte; the two names never do.
    pub fn open_jack_call(
        device_type: DeviceType,
        connection_type: ConnectionType,
        identifier: Vec<u8>,
    ) -> (arguments: Result<OpenArguments, LJMError>)
        ensures
            match arguments {
                Ok(texts) => {
                    &&& texts.device_type@ == vstd::utf8::encode_utf8(device_type.name()).push(0)
                    &&& texts.connection_type@ == vstd::utf8::encode_utf8(
                        connection_type.name(),
                    ).push(0)
                    &&& texts.identifier@ == identifier@.push(0)
                    &&& !has_nul(identifier@)
                },
                Err(error) => error is CStringConversionFailed && has_nul(identifier@),
            },
    {
        proof {
            lemma_device_type_name_plain(device_type);
            lemma_connection_type_name_plain(connection_type);
            lemma_plain_text_holds_no_nul(device_type.name());
            lemma_plain_text_holds_no_nul(connection_type.name());
        }
        let device_type = c_string(device_type.to_string().as_str().as_bytes_vec())?;
        let connection_type = c_string(connection_type.to_string().as_str().as_bytes_vec())?;
        let identifier = c_string(identifier)?;
        Ok(OpenArguments { device_type, connection_type, identifier })
    }

    /// What reading a byte array hands to the device library: the register's
    /// name as text for the library, and a buffer of exactly `size` zero
    /// bytes for it to fill.
    pub fn read_name_byte_array_call(
        name_to_read: Vec<u8>,
        size: i32,
    ) -> (arguments: Result<(Vec<u8>, Vec<u8>), LJMError>)
        requires
            size >= 0,
        ensures
            match arguments {
                Ok((name, buffer)) => {
                    &&& !has_nul(name_to_read@)
                    &&& name@ == name_to_read@.push(0)
                    &&& buffer@ == Seq::new(size as nat, |i: int| 0u8)
                },
                Err(error) => has_nul(name_to_read@) && error is CStringConversionFailed,
            },
    {
        let mut buffer: Vec<u8> = Vec::new();
        let mut filled: i32 = 0;
        while filled < size
            invariant
                0 <= filled <= size,
                buffer@ == Seq::new(filled as nat, |i: int| 0u8),
            decreases size - filled,
        {
            buffer.push(0);
            filled = filled + 1;
            assert(buffer@ =~= Seq::new(filled as nat, |i: int| 0u8));
        }
        let name = c_string(name_to_read)?;
        Ok((name, buffer))
    }

    /// Reads the text that the device library wrote for a status.
    ///
    /// `buffer` is the whole buffer that was handed to the library, text and
    /// what follows it. Where it is no UTF-8 the result is a `LibraryError`
    /// that says so.
    pub fn error_to_string(buffer: Vec<u8>) -> (text: Result<String, LJMError>)
        ensures
            match text {
                Ok(rendered) => valid_utf8(buffer@) && rendered@ == decode_utf8(buffer@),
                Err(error) => {
                    &&& !valid_utf8(buffer@)
                    &&& error matches LJMError::LibraryError(message)
                    &&& message@ == "Unable to retrieve buffer pointer. "@ + utf8_error_text(
                        buffer@,
                    )
                },
            },
    {
        match decode_text(buffer.as_slice()) {
            Ok(rendered) => Ok(rendered),
            Err(reason) => Err(
                LJMError::LibraryError(
                    String::from_str("Unable to retrieve buffer pointer. ").concat(reason.as_str()),
                ),
            ),
        }
    }

    /// What converting a numeric address hands to the device library: the
    /// number as an unsigned one, and a buffer for the dotted text.
    ///
    /// Fails with a `LibraryError` exactly for a negative number.
    pub fn number_to_ip_call(number: i32) -> (arguments: Result<(u32, Vec<u8>), LJMError>)
        ensures
            match arguments {
                Ok((unsigned, buffer)) => {
                    &&& number >= 0
                    &&& unsigned == number
                    &&& buffer@ == ip_template()
                },
                Err(error) => {
                    &&& number < 0
                    &&& error matches LJMError::LibraryError(message)
                    &&& message@
                        == "Unable to convert number into C unsigned integer. out of range integral type conversion attempted"@
                },
            },
    {
        if number < 0 {
            return Err(
                LJMError::LibraryError(
                    String::from_str(
                        "Unable to convert number into C unsigned integer. out of range integral type conversion attempted",
                    ),
                ),
            );
        }
        let mut buffer: Vec<u8> = Vec::new();
        let mut group: usize = 0;
        while group < 4
            invariant
                group <= 4,
                buffer@.len() == 4 * group,
                forall|i: int|
                    0 <= i < buffer@.len() ==> buffer@[i] == (if i % 4 == 3 {
                        46u8
                    } else {
                        48u8
                    }),
            decreases 4 - group,
        {
            buffer.push(48);
            buffer.push(48);
            buffer.push(48);
            buffer.push(46);
            group = group + 1;
        }
        buffer.set(15, 0);
        proof {
            reveal_strlit("000.000.000.000");
            assert(buffer@ =~= ip_template());
        }
        Ok((number as u32, buffer))
    }

    /// Reads the dotted address that the device library wrote.
    ///
    /// The text is what stands in `buffer` before its first zero byte. Text
    /// that is no UTF-8 is a `LibraryError`, whatever the status; else the
    /// status decides.
    pub fn number_to_ip(
        buffer: Vec<u8>,
        error_code: i32,
        description: Result<String, LJMError>,
    ) -> (result: Result<String, LJMError>)
        ensures
            !valid_utf8(c_text(buffer@)) ==> {
                &&& result matches Err(LJMError::LibraryError(message))
                &&& message@ == "Unable to retrieve IP pointer. C string contained non-utf8 bytes"@
            },
            valid_utf8(c_text(buffer@)) && error_code == 0 ==> {
                &&& result matches Ok(text)
                &&& text@ == decode_utf8(c_text(buffer@))
            },
            valid_utf8(c_text(buffer@)) && error_code != 0 ==> result == Err::<String, LJMError>(
                failure(error_code, description),
            ),
    {
        let end = text_end(buffer.as_slice());
        let text = vstd::slice::slice_subrange(buffer.as_slice(), 0, end);
        match decode_text(text) {
            Ok(recovered) => LJMLibrary::error_code(recovered, error_code, description),
            Err(_) => Err(
                LJMError::LibraryError(
                    String::from_str(
                        "Unable to retrieve IP pointer. C string contained non-utf8 bytes",
                    ),
                ),
            ),
        }
    }
}

} // verus!
