//! The [`Entry`] struct: one row of the key-value mapping.

use vstd::prelude::*;
use vstd::string::*;

use crate::dec_int;
use crate::i32_dec_string;

verus! {

/// Debug-quoted form of a string: surrounding quotes plus escapes, a function
/// of the characters alone.
pub uninterp spec fn debug_quoted(s: Seq<char>) -> Seq<char>;

/// Relies on the `Debug` formatting of `str`: a quoted, escaped rendering that
/// depends on the characters alone.
#[verifier::external_body]
fn debug_str(s: &str) -> (r: String)
    ensures
        r@ == debug_quoted(s@),
{
    format!("{:?}", s)
}

/// The JSON object rendered for an entry: all four fields as JSON strings,
/// the id included, and the payloads inserted verbatim (no escaping — a
/// deliberate format quirk).
pub open spec fn json_of(id: int, name: Seq<char>, value: Seq<char>, alternate: Seq<char>) -> Seq<
    char,
> {
    "{ \"_id\": \""@ + dec_int(id) + "\", \"name\": \""@ + name + "\", \"value\": \""@ + value
        + "\", \"alternate\": \""@ + alternate + "\" }"@
}

/// The one-line debug rendering of an entry, with each string field
/// debug-quoted.
pub open spec fn line_of(id: int, name: Seq<char>, value: Seq<char>, alternate: Seq<char>) -> Seq<
    char,
> {
    "Entry { _id: "@ + dec_int(id) + ", name: "@ + debug_quoted(name) + ", value: "@
        + debug_quoted(value) + ", alternate: "@ + debug_quoted(alternate) + " }"@
}

/// Representation of an entry in the db.
#[derive(Debug)]
pub struct Entry {
    /// The id in the db.
    ///
    /// This is used as the primary key in the db. It is never touched by the user.
    pub _id: i32,
    /// The identifier set & accessed by users.
    pub name: String,
    /// The value of the entry.
    pub value: String,
    /// An additional value that can be toggled to.
    ///
    /// This is particularly useful for true / false toggles.
    pub alternate: String,
}

impl View for Entry {
    type V = (int, Seq<char>, Seq<char>, Seq<char>);

    open spec fn view(&self) -> Self::V {
        (self._id as int, self.name@, self.value@, self.alternate@)
    }
}

impl Entry {
    /// The entry rendered as a JSON object.
    pub(crate) fn json_string(&self) -> (r: String)
        ensures
            r@ == json_of(self._id as int, self.name@, self.value@, self.alternate@),
    {
        let mut s = String::from_str("{ \"_id\": \"");
        s.append(i32_dec_string(self._id).as_str());
        s.append("\", \"name\": \"");
        s.append(self.name.as_str());
        s.append("\", \"value\": \"");
        s.append(self.value.as_str());
        s.append("\", \"alternate\": \"");
        s.append(self.alternate.as_str());
        s.append("\" }");
        proof {
            assert(s@ =~= json_of(self._id as int, self.name@, self.value@, self.alternate@));
        }
        s
    }

    /// The entry rendered as a JSON object.
    pub fn json(self) -> (r: String)
        ensures
            r@ == json_of(self@.0, self@.1, self@.2, self@.3),
    {
        self.json_string()
    }

    /// The entry rendered as one debug line, the shape `list` prints per
    /// entry in its non-JSON formats.
    pub fn display_string(&self) -> (r: String)
        ensures
            r@ == line_of(self@.0, self@.1, self@.2, self@.3),
    {
        let mut s = String::from_str("Entry { _id: ");
        s.append(i32_dec_string(self._id).as_str());
        s.append(", name: ");
        s.append(debug_str(self.name.as_str()).as_str());
        s.append(", value: ");
        s.append(debug_str(self.value.as_str()).as_str());
        s.append(", alternate: ");
        s.append(debug_str(self.alternate.as_str()).as_str());
        s.append(" }");
        proof {
            assert(s@ =~= line_of(self@.0, self@.1, self@.2, self@.3));
        }
        s
    }
}

} // verus!
