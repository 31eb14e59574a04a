//! Named binary payloads: the unit of work handed to the container
//! assembler. A payload is a (name, bytes) pair; tile payloads and the
//! palette payload are both of this shape.

use vstd::prelude::*;

verus! {

/// The mathematical value of a [`Payload`]: its name as a sequence of
/// characters and its contents as a sequence of bytes.
pub ghost struct PayloadModel {
    pub name: Seq<char>,
    pub bytes: Seq<u8>,
}

/// A named binary blob: one appvar to be framed into the container.
pub struct Payload {
    pub name: String,
    pub bytes: Vec<u8>,
}

impl View for Payload {
    type V = PayloadModel;

    open spec fn view(&self) -> PayloadModel {
        PayloadModel { name: self.name@, bytes: self.bytes@ }
    }
}

/// The sequence of payload values behind a vector of payloads.
pub open spec fn views_of(s: Seq<Payload>) -> Seq<PayloadModel> {
    s.map_values(|p: Payload| p@)
}

/// A character that may stand in a container entry name: printable ASCII,
/// excluding the path separators that the container format treats specially.
pub open spec fn tar_name_char(c: char) -> bool {
    32 <= c as u32 && c as u32 <= 126 && c != '/' && c != '\\'
}

/// A payload name the assembler accepts: short enough that the derived
/// entry name fits the container's fixed-width name field, and made of
/// characters the format stores verbatim.
pub open spec fn valid_payload_name(s: Seq<char>) -> bool {
    s.len() <= 95 && (forall|i: int| 0 <= i < s.len() ==> tar_name_char(s[i]))
}

} // verus!
