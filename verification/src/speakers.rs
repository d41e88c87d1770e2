use vstd::prelude::*;

verus! {

/// A custom display name given to a diarized speaker of a meeting
/// (`speaker_00` -> "Anna").
#[derive(Clone, Debug)]
pub struct MeetingSpeaker {
    pub meeting_id: String,
    pub speaker_key: String,
    pub display_name: String,
}

/// Storage of named speakers; its queries live with the database layer.
pub struct SpeakersRepository;

/// Unicode `White_Space`, the set that `char::is_whitespace` and `str::trim` use.
pub open spec fn is_white_space(c: char) -> bool {
    let v = c as u32;
    ||| 0x09 <= v <= 0x0D
    ||| v == 0x20
    ||| v == 0x85
    ||| v == 0xA0
    ||| v == 0x1680
    ||| 0x2000 <= v <= 0x200A
    ||| v == 0x2028
    ||| v == 0x2029
    ||| v == 0x202F
    ||| v == 0x205F
    ||| v == 0x3000
}

/// The text is empty once surrounding white space is trimmed.
pub open spec fn is_blank(s: Seq<char>) -> bool {
    forall|i: int| 0 <= i < s.len() ==> is_white_space(#[trigger] s[i])
}

fn is_white_space_char(c: char) -> (r: bool)
    ensures
        r == is_white_space(c),
{
    let v = c as u32;
    (0x09 <= v && v <= 0x0D) || v == 0x20 || v == 0x85 || v == 0xA0 || v == 0x1680 || (0x2000
        <= v && v <= 0x200A) || v == 0x2028 || v == 0x2029 || v == 0x202F || v == 0x205F || v
        == 0x3000
}

/// Whether `s` holds only white space (so `s.trim()` is empty).
pub fn is_blank_text(s: &str) -> (r: bool)
    ensures
        r == is_blank(s@),
{
    let n = s.unicode_len();
    let mut i: usize = 0;
    while i < n
        invariant
            n == s@.len(),
            i <= n,
            forall|k: int| 0 <= k < i ==> is_white_space(#[trigger] s@[k]),
        decreases n - i,
    {
        let c = s.get_char(i);
        if !is_white_space_char(c) {
            return false;
        }
        i = i + 1;
    }
    true
}

/// The error for a display name that is empty or only white space.
pub open spec fn empty_display_name_message() -> Seq<char> {
    "Display name cannot be empty"@
}

/// A speaker can only be renamed to a name with some visible character.
pub fn validate_display_name(display_name: &str) -> (r: Result<(), String>)
    ensures
        is_blank(display_name@) ==> (r matches Err(e) && e@ == empty_display_name_message()),
        !is_blank(display_name@) ==> r is Ok,
{
    if is_blank_text(display_name) {
        return Err(String::from_str("Display name cannot be empty"));
    }
    Ok(())
}

} // verus!
