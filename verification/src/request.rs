//! The request that sets the device: a form-encoded body of ten fields in a
//! fixed order, posted to a fixed address.
//!
//! The request carries each number as the text that the platform writes for
//! it by default, whatever its size and however many digits it takes. The
//! text is made where the number is read; here it is checked and framed.

use crate::decimal::{append_digits, digits};
use crate::panel::{field_id, field_name, pattern_id, pattern_name, Part, Slot};
use crate::pattern::{get_pattern, is_digit, pattern_of};
use vstd::prelude::*;
use vstd::string::*;

verus! {

/// `s` without the minus sign that may lead it.
pub open spec fn unsigned_text(s: Seq<char>) -> Seq<char> {
    if s.len() > 0 && s[0] == '-' {
        s.subrange(1, s.len() as int)
    } else {
        s
    }
}

/// Whether `s` is a plain decimal number: an optional minus sign, then
/// digits with at most one point among them, a digit first and a digit last.
/// This is how every finite number is written by default.
pub open spec fn is_decimal(s: Seq<char>) -> bool {
    let run = unsigned_text(s);
    &&& run.len() > 0
    &&& is_digit(run[0])
    &&& is_digit(run[run.len() - 1])
    &&& forall|i: int| 0 <= i < run.len() ==> is_digit(#[trigger] run[i]) || run[i] == '.'
    &&& forall|i: int, j: int|
        0 <= i < j < run.len() ==> !(#[trigger] run[i] == '.' && #[trigger] run[j] == '.')
}

/// The text that a field is sent as: the reading's own text where it is a
/// plain decimal number, and zero where there is no reading or where it is
/// something else.
pub open spec fn sent_text(reading: Option<Seq<char>>) -> Seq<char> {
    match reading {
        Some(t) => if is_decimal(t) {
            t
        } else {
            "0"@
        },
        None => "0"@,
    }
}

/// The texts of the three fields of one slot as they were read. `None`
/// stands for a field that the page lacks, that is no number field, or whose
/// number is not finite.
#[derive(Debug)]
pub struct SlotTexts {
    pub h: Option<String>,
    pub s: Option<String>,
    pub v: Option<String>,
}

/// The text of a reading as a sequence of characters.
pub open spec fn text_of(reading: Option<String>) -> Option<Seq<char>> {
    match reading {
        Some(s) => Some(s@),
        None => None,
    }
}

/// One field of the body: its name, an equals sign and the number.
pub open spec fn field_text(slot: Slot, part: Part, reading: Option<Seq<char>>) -> Seq<char> {
    field_name(slot, part) + "="@ + sent_text(reading)
}

/// The three fields of one slot, in the order hue, saturation, value.
pub open spec fn slot_text(slot: Slot, c: SlotTexts) -> Seq<char> {
    field_text(slot, Part::Hue, text_of(c.h)) + "&"@ + field_text(
        slot,
        Part::Saturation,
        text_of(c.s),
    ) + "&"@ + field_text(slot, Part::Value, text_of(c.v))
}

/// The body: the three slots in order, then the pattern.
pub open spec fn body_text(c1: SlotTexts, c2: SlotTexts, c3: SlotTexts, pattern: u8) -> Seq<
    char,
> {
    slot_text(Slot::Color1, c1) + "&"@ + slot_text(Slot::Color2, c2) + "&"@ + slot_text(
        Slot::Color3,
        c3,
    ) + "&"@ + pattern_name() + "="@ + digits(pattern as nat)
}

/// Where the device listens.
pub open spec fn endpoint() -> Seq<char> {
    "http://website.tld/led_api_01/set"@
}

/// What was read from the whole page at one moment, for the request.
#[derive(Debug)]
pub struct PanelInputs {
    pub color1: SlotTexts,
    pub color2: SlotTexts,
    pub color3: SlotTexts,
    /// The text of the pattern selector; `None` where the page has none.
    pub pattern: Option<String>,
}

impl PanelInputs {
    /// The body that this reading of the page is sent as.
    pub open spec fn body(self) -> Seq<char> {
        body_text(self.color1, self.color2, self.color3, pattern_of(text_of(self.pattern)))
    }
}

/// Only what the fields are sent as reaches the body: two readings of the
/// page that differ in nothing but a field that is missing in one and zero
/// in the other, or a selector that is missing or unreadable in one and set
/// to pattern zero in the other, are sent as the same ten fields.
pub proof fn lemma_body_counts_missing_as_zero(a: PanelInputs, b: PanelInputs)
    requires
        sent_text(text_of(a.color1.h)) == sent_text(text_of(b.color1.h)),
        sent_text(text_of(a.color1.s)) == sent_text(text_of(b.color1.s)),
        sent_text(text_of(a.color1.v)) == sent_text(text_of(b.color1.v)),
        sent_text(text_of(a.color2.h)) == sent_text(text_of(b.color2.h)),
        sent_text(text_of(a.color2.s)) == sent_text(text_of(b.color2.s)),
        sent_text(text_of(a.color2.v)) == sent_text(text_of(b.color2.v)),
        sent_text(text_of(a.color3.h)) == sent_text(text_of(b.color3.h)),
        sent_text(text_of(a.color3.s)) == sent_text(text_of(b.color3.s)),
        sent_text(text_of(a.color3.v)) == sent_text(text_of(b.color3.v)),
        pattern_of(text_of(a.pattern)) == pattern_of(text_of(b.pattern)),
    ensures
        a.body() == b.body(),
{
}

/// A field that could not be read is sent under its own name as the single
/// digit zero, and so is a field that reads zero.
pub proof fn lemma_missing_field_sent_as_zero(slot: Slot, part: Part)
    ensures
        field_text(slot, part, None) == field_name(slot, part) + "="@ + seq!['0'],
        field_text(slot, part, Some("0"@)) == field_text(slot, part, None),
{
    reveal_strlit("0");
    assert("0"@ =~= seq!['0']);
}

/// A selector that the page lacks is sent as pattern zero, written as the
/// single digit zero.
pub proof fn lemma_missing_pattern_sent_as_zero()
    ensures
        digits(pattern_of(None) as nat) == seq!['0'],
{
}

/// A request, ready to be sent.
#[derive(Debug)]
pub struct Submission {
    pub url: &'static str,
    pub method: &'static str,
    pub content_type: &'static str,
    /// Whether the request may go to another origin than the page's own.
    pub cross_origin: bool,
    pub body: String,
}

/// Tells whether `text` is a plain decimal number.
pub fn check_decimal(text: &str) -> (ok: bool)
    ensures
        ok == is_decimal(text@),
{
    let n: usize = text.unicode_len();
    if n == 0 {
        return false;
    }
    let start: usize = if text.get_char(0) == '-' {
        1
    } else {
        0
    };
    if start == n {
        return false;
    }
    let ghost run = unsigned_text(text@);
    assert(run =~= text@.subrange(start as int, n as int));
    let mut point: Option<usize> = None;
    let mut last_is_digit: bool = false;
    let mut i: usize = start;
    while i < n
        invariant
            start <= i <= n,
            n == text@.len(),
            start < n,
            run == unsigned_text(text@),
            run =~= text@.subrange(start as int, n as int),
            forall|j: int| 0 <= j < i - start ==> is_digit(#[trigger] run[j]) || run[j] == '.',
            i > start ==> is_digit(run[0]),
            i > start ==> last_is_digit == is_digit(run[i - start - 1]),
            match point {
                Some(p) => start <= p < i && run[p - start] == '.' && forall|j: int|
                    0 <= j < i - start && j != p - start ==> #[trigger] run[j] != '.',
                None => forall|j: int| 0 <= j < i - start ==> #[trigger] run[j] != '.',
            },
        decreases n - i,
    {
        let c: char = text.get_char(i);
        assert(run[i - start] == c);
        if c == '.' {
            if i == start {
                assert(!is_digit(run[0]));
                return false;
            }
            match point {
                Some(p) => {
                    assert(run[p - start] == '.' && run[i - start] == '.');
                    return false;
                },
                None => {},
            }
            point = Some(i);
            last_is_digit = false;
        } else if c < '0' || c > '9' {
            assert(!is_digit(run[i - start]) && run[i - start] != '.');
            return false;
        } else {
            last_is_digit = true;
        }
        i = i + 1;
    }
    last_is_digit
}

fn append_field(out: &mut String, slot: Slot, part: Part, reading: &Option<String>)
    ensures
        final(out)@ == old(out)@ + field_text(slot, part, text_of(*reading)),
{
    out.append(field_id(slot, part));
    out.append("=");
    match reading {
        Some(t) => {
            if check_decimal(t.as_str()) {
                out.append(t.as_str());
            } else {
                out.append("0");
            }
        },
        None => {
            out.append("0");
        },
    }
    assert(final(out)@ =~= old(out)@ + field_text(slot, part, text_of(*reading)));
}

fn append_slot(out: &mut String, slot: Slot, c: &SlotTexts)
    ensures
        final(out)@ == old(out)@ + slot_text(slot, *c),
{
    append_field(out, slot, Part::Hue, &c.h);
    out.append("&");
    append_field(out, slot, Part::Saturation, &c.s);
    out.append("&");
    append_field(out, slot, Part::Value, &c.v);
    assert(final(out)@ =~= old(out)@ + slot_text(slot, *c));
}

/// Encodes three colours and a pattern as the body of a request: ten fields,
/// always in the same order and under the same names.
pub fn encode_request(c1: &SlotTexts, c2: &SlotTexts, c3: &SlotTexts, pattern: u8) -> (body:
    String)
    ensures
        body@ == body_text(*c1, *c2, *c3, pattern),
{
    let mut body = String::new();
    append_slot(&mut body, Slot::Color1, c1);
    body.append("&");
    append_slot(&mut body, Slot::Color2, c2);
    body.append("&");
    append_slot(&mut body, Slot::Color3, c3);
    body.append("&");
    body.append(pattern_id());
    body.append("=");
    append_digits(&mut body, pattern as u32);
    assert(body@ =~= body_text(*c1, *c2, *c3, pattern));
    body
}

/// Builds the request that sets the device to what the page shows. A field
/// that could not be read is sent as zero, a selector that names no pattern
/// as pattern zero; nothing prevents the request.
pub fn set_leds(panel: &PanelInputs) -> (request: Submission)
    ensures
        request.url@ == endpoint(),
        request.method@ == "POST"@,
        request.content_type@ == "application/x-www-form-urlencoded"@,
        request.cross_origin,
        request.body@ == panel.body(),
{
    let pattern = match &panel.pattern {
        Some(s) => get_pattern(Some(s.as_str())),
        None => get_pattern(None),
    };
    Submission {
        url: "http://website.tld/led_api_01/set",
        method: "POST",
        content_type: "application/x-www-form-urlencoded",
        cross_origin: true,
        body: encode_request(&panel.color1, &panel.color2, &panel.color3, pattern),
    }
}

} // verus!
