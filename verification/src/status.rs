//! The read-only status interface: the latest smoothed distances as a compact
//! line and as an HTML page.
//!
//! Both texts are built in fixed-capacity strings, so that no allocation is
//! needed where they are served. The distances are shown in whole
//! centimetres, rounded towards zero.

use vstd::prelude::*;
use vstd::string::*;
use vstd::utf8::*;
use crate::distance::{Distance, CRITICAL_DISTANCE, WARNING_DISTANCE};

verus! {

/// Capacity of the compact status line, in bytes.
pub const LINE_CAPACITY: usize = 64;

/// Capacity of the status page, in bytes.
pub const PAGE_CAPACITY: usize = 2048;

/// The two most recent smoothed distances.
#[derive(Clone, Copy, Debug, PartialEq, Eq, Structural)]
pub struct Readings {
    pub left: Distance,
    pub right: Distance,
}

/// `heapless::String`, a string of fixed capacity that lives in place.
/// Nothing is known of its fields; what it holds is named by [`line_text`]
/// and [`page_text`].
#[verifier::external_type_specification]
#[verifier::external_body]
pub struct ExFixedString<const N: usize>(heapless::String<N>);

/// The characters held by a status line.
pub uninterp spec fn line_text(s: heapless::String<64>) -> Seq<char>;

/// The characters held by a status page.
pub uninterp spec fn page_text(s: heapless::String<2048>) -> Seq<char>;

/// `heapless::String::new` at capacity 64: the string it returns is empty.
#[verifier::external_body]
fn line_new() -> (s: heapless::String<64>)
    ensures
        line_text(s) == Seq::<char>::empty(),
{
    heapless::String::new()
}

/// `heapless::String::new` at capacity 2048: the string it returns is empty.
#[verifier::external_body]
fn page_new() -> (s: heapless::String<2048>)
    ensures
        page_text(s) == Seq::<char>::empty(),
{
    heapless::String::new()
}

/// `heapless::String::push_str` at capacity 64. The text is appended whole
/// when its bytes fit beside the bytes already held; otherwise the string is
/// left as it was. The result tells which.
#[verifier::external_body]
fn line_push_str(s: &mut heapless::String<64>, t: &str) -> (ok: bool)
    ensures
        ok == (encode_utf8(line_text(*old(s))).len() + t.spec_bytes().len() <= 64),
        ok ==> line_text(*final(s)) == line_text(*old(s)) + t@,
        !ok ==> line_text(*final(s)) == line_text(*old(s)),
{
    s.push_str(t).is_ok()
}

/// `heapless::String::push_str` at capacity 2048. The text is appended whole
/// when its bytes fit beside the bytes already held; otherwise the string is
/// left as it was. The result tells which.
#[verifier::external_body]
fn page_push_str(s: &mut heapless::String<2048>, t: &str) -> (ok: bool)
    ensures
        ok == (encode_utf8(page_text(*old(s))).len() + t.spec_bytes().len() <= 2048),
        ok ==> page_text(*final(s)) == page_text(*old(s)) + t@,
        !ok ==> page_text(*final(s)) == page_text(*old(s)),
{
    s.push_str(t).is_ok()
}

/// The character of one decimal digit.
pub open spec fn digit_char(d: nat) -> char {
    if d == 0 {
        '0'
    } else if d == 1 {
        '1'
    } else if d == 2 {
        '2'
    } else if d == 3 {
        '3'
    } else if d == 4 {
        '4'
    } else if d == 5 {
        '5'
    } else if d == 6 {
        '6'
    } else if d == 7 {
        '7'
    } else if d == 8 {
        '8'
    } else {
        '9'
    }
}

/// The decimal numeral of `n`, without sign or leading zeros.
pub open spec fn decimal(n: nat) -> Seq<char>
    decreases n,
{
    if n < 10 {
        seq![digit_char(n)]
    } else {
        decimal(n / 10).push(digit_char(n % 10))
    }
}

/// The ten-fold product of `k` tens.
pub open spec fn power_of_ten(k: nat) -> nat
    decreases k,
{
    if k == 0 {
        1
    } else {
        10 * power_of_ten((k - 1) as nat)
    }
}

/// The style class of a distance on the status page.
pub open spec fn zone_class_of(d: nat) -> Seq<char> {
    if d < CRITICAL_DISTANCE {
        "critical"@
    } else if d < WARNING_DISTANCE {
        "warning"@
    } else {
        "normal"@
    }
}

/// The compact status line: `L:`, the left distance, ` R:`, the right
/// distance, both in whole centimetres.
pub open spec fn status_line_of(left: nat, right: nat) -> Seq<char> {
    "L:"@ + decimal(left / 1000) + " R:"@ + decimal(right / 1000)
}

/// The status page: an HTTP response that carries an HTML document with one
/// block for each sensor, styled by the sensor's zone.
pub open spec fn status_page_of(left: nat, right: nat) -> Seq<char> {
    "HTTP/1.1 200 OK\r\n"@
        + "Content-Type: text/html\r\n"@
        + "Connection: close\r\n"@
        + "\r\n"@
        + "<!DOCTYPE html>\n"@
        + "<html>\n"@
        + "<head>\n"@
        + "    <title>VisionAssist Status</title>\n"@
        + "    <meta http-equiv=\"refresh\" content=\"2\">\n"@
        + "    <style>\n"@
        + "        body { font-family: Arial, sans-serif; margin: 20px; }\n"@
        + "        .sensor { margin: 10px 0; padding: 10px; border: 1px solid #ccc; }\n"@
        + "        .critical { background-color: #ffcccc; }\n"@
        + "        .warning { background-color: #ffffcc; }\n"@
        + "        .normal { background-color: #ccffcc; }\n"@
        + "    </style>\n"@
        + "</head>\n"@
        + "<body>\n"@
        + "    <h1>VisionAssist Status</h1>\n"@
        + "    <div class=\"sensor "@
        + zone_class_of(left)
        + "\">\n"@
        + "        <h2>Left Sensor</h2>\n"@
        + "        <p>Distance: "@
        + decimal(left / 1000)
        + " cm</p>\n"@
        + "    </div>\n"@
        + "    <div class=\"sensor "@
        + zone_class_of(right)
        + "\">\n"@
        + "        <h2>Right Sensor</h2>\n"@
        + "        <p>Distance: "@
        + decimal(right / 1000)
        + " cm</p>\n"@
        + "    </div>\n"@
        + "</body>\n"@
        + "</html>\n"@
}

/// A numeral is made of ASCII digits, one for each power of ten that the
/// number reaches.
pub proof fn lemma_decimal_is_ascii(n: nat)
    ensures
        is_ascii_chars(decimal(n)),
        decimal(n).len() >= 1,
    decreases n,
{
    if n >= 10 {
        lemma_decimal_is_ascii(n / 10);
    }
}

/// The digit that a character stands for, where it is a decimal digit.
pub open spec fn digit_value(c: char) -> nat {
    if c == '0' {
        0
    } else if c == '1' {
        1
    } else if c == '2' {
        2
    } else if c == '3' {
        3
    } else if c == '4' {
        4
    } else if c == '5' {
        5
    } else if c == '6' {
        6
    } else if c == '7' {
        7
    } else if c == '8' {
        8
    } else {
        9
    }
}

/// The number that a sequence of decimal digits stands for.
pub open spec fn numeral_value(digits: Seq<char>) -> nat
    decreases digits.len(),
{
    if digits.len() == 0 {
        0
    } else {
        10 * numeral_value(digits.drop_last()) + digit_value(digits.last())
    }
}

/// A numeral stands for its number, and only the numeral of zero starts with
/// a zero.
pub proof fn lemma_decimal_round_trip(n: nat)
    ensures
        numeral_value(decimal(n)) == n,
        n > 0 ==> decimal(n)[0] != '0',
    decreases n,
{
    if n < 10 {
        assert(decimal(n).drop_last() =~= Seq::<char>::empty());
        assert(numeral_value(Seq::<char>::empty()) == 0);
    } else {
        lemma_decimal_round_trip(n / 10);
        lemma_decimal_is_ascii(n / 10);
        assert(decimal(n).drop_last() =~= decimal(n / 10));
    }
}

/// The style class of the page follows the zones of the classifier: the
/// critical class below 30 cm, the warning class from there to 60 cm, the
/// normal class beyond.
pub proof fn lemma_zone_class_by_zone(d: nat)
    ensures
        zone_class_of(d) == "critical"@ <==> d < CRITICAL_DISTANCE,
        zone_class_of(d) == "warning"@ <==> CRITICAL_DISTANCE <= d < WARNING_DISTANCE,
        zone_class_of(d) == "normal"@ <==> d >= WARNING_DISTANCE,
{
    reveal_strlit("critical");
    reveal_strlit("warning");
    reveal_strlit("normal");
    assert("critical"@.len() == 8);
    assert("warning"@.len() == 7);
    assert("normal"@.len() == 6);
}

/// A number below the `k`-th power of ten has at most `k` digits.
pub proof fn lemma_decimal_len(n: nat, k: nat)
    requires
        k >= 1,
        n < power_of_ten(k),
    ensures
        decimal(n).len() <= k,
    decreases k,
{
    if n >= 10 {
        if k == 1 {
            assert(power_of_ten(1) == 10) by {
                reveal_with_fuel(power_of_ten, 3);
            }
        } else {
            lemma_decimal_len(n / 10, (k - 1) as nat);
        }
    }
}

/// A 32-bit number has at most ten digits.
pub proof fn lemma_decimal_len_u32(n: u32)
    ensures
        1 <= decimal(n as nat).len() <= 10,
        is_ascii_chars(decimal(n as nat)),
{
    assert(power_of_ten(10) == 10_000_000_000) by {
        reveal_with_fuel(power_of_ten, 12);
    }
    lemma_decimal_len(n as nat, 10);
    lemma_decimal_is_ascii(n as nat);
}

/// The text of one decimal digit.
pub fn digit_str(d: u32) -> (s: &'static str)
    requires
        d < 10,
    ensures
        s@ == seq![digit_char(d as nat)],
        is_ascii(s),
{
    proof {
        reveal_strlit("0");
        reveal_strlit("1");
        reveal_strlit("2");
        reveal_strlit("3");
        reveal_strlit("4");
        reveal_strlit("5");
        reveal_strlit("6");
        reveal_strlit("7");
        reveal_strlit("8");
        reveal_strlit("9");
    }
    let s = if d == 0 {
        "0"
    } else if d == 1 {
        "1"
    } else if d == 2 {
        "2"
    } else if d == 3 {
        "3"
    } else if d == 4 {
        "4"
    } else if d == 5 {
        "5"
    } else if d == 6 {
        "6"
    } else if d == 7 {
        "7"
    } else if d == 8 {
        "8"
    } else {
        "9"
    };
    assert(s@ =~= seq![digit_char(d as nat)]);
    s
}

/// The style class of a distance: `critical` under 30 cm, `warning` under
/// 60 cm, else `normal`.
pub fn zone_class(distance: Distance) -> (class: &'static str)
    ensures
        class@ == zone_class_of(distance@),
        is_ascii(class),
        class@.len() <= 8,
{
    proof {
        reveal_strlit("critical");
        reveal_strlit("warning");
        reveal_strlit("normal");
    }
    if distance.units < CRITICAL_DISTANCE {
        "critical"
    } else if distance.units < WARNING_DISTANCE {
        "warning"
    } else {
        "normal"
    }
}

/// Appends an ASCII text to a status line that has room for it.
fn line_put(line: &mut heapless::String<64>, t: &str)
    requires
        is_ascii_chars(line_text(*old(line))),
        is_ascii(t),
        line_text(*old(line)).len() + t@.len() <= LINE_CAPACITY,
    ensures
        line_text(*final(line)) == line_text(*old(line)) + t@,
        is_ascii_chars(line_text(*final(line))),
{
    proof {
        is_ascii_chars_encode_utf8(line_text(*line));
        is_ascii_chars_encode_utf8(t@);
        is_ascii_chars_concat(line_text(*line) + t@, line_text(*line), t@);
    }
    let _ = line_push_str(line, t);
}

/// Appends the numeral of `n` to a status line that has room for it.
fn line_put_number(line: &mut heapless::String<64>, n: u32)
    requires
        is_ascii_chars(line_text(*old(line))),
        line_text(*old(line)).len() + decimal(n as nat).len() <= LINE_CAPACITY,
    ensures
        line_text(*final(line)) == line_text(*old(line)) + decimal(n as nat),
        is_ascii_chars(line_text(*final(line))),
    decreases n,
{
    let ghost before = line_text(*line);
    if n >= 10 {
        line_put_number(line, n / 10);
    }
    line_put(line, digit_str(n % 10));
    assert(line_text(*line) =~= before + decimal(n as nat));
}

/// Appends an ASCII text to a status page that has room for it.
fn page_put(page: &mut heapless::String<2048>, t: &str)
    requires
        is_ascii_chars(page_text(*old(page))),
        is_ascii(t),
        page_text(*old(page)).len() + t@.len() <= PAGE_CAPACITY,
    ensures
        page_text(*final(page)) == page_text(*old(page)) + t@,
        is_ascii_chars(page_text(*final(page))),
{
    proof {
        is_ascii_chars_encode_utf8(page_text(*page));
        is_ascii_chars_encode_utf8(t@);
        is_ascii_chars_concat(page_text(*page) + t@, page_text(*page), t@);
    }
    let _ = page_push_str(page, t);
}

/// Appends the numeral of `n` to a status page that has room for it.
fn page_put_number(page: &mut heapless::String<2048>, n: u32)
    requires
        is_ascii_chars(page_text(*old(page))),
        page_text(*old(page)).len() + decimal(n as nat).len() <= PAGE_CAPACITY,
    ensures
        page_text(*final(page)) == page_text(*old(page)) + decimal(n as nat),
        is_ascii_chars(page_text(*final(page))),
    decreases n,
{
    let ghost before = page_text(*page);
    if n >= 10 {
        page_put_number(page, n / 10);
    }
    page_put(page, digit_str(n % 10));
    assert(page_text(*page) =~= before + decimal(n as nat));
}

/// Builds the compact status line of the two readings.
pub fn status_line(readings: Readings) -> (line: heapless::String<64>)
    ensures
        line_text(line) == status_line_of(readings.left@, readings.right@),
        line_text(line).len() <= LINE_CAPACITY,
        is_ascii_chars(line_text(line)),
{
    let left = readings.left;
    let right = readings.right;
    let mut line = line_new();
    proof {
        reveal_strlit("L:");
        reveal_strlit(" R:");
        lemma_decimal_len_u32(left.units / 1000);
        lemma_decimal_len_u32(right.units / 1000);
    }
    line_put(&mut line, "L:");
    line_put_number(&mut line, left.whole_cm());
    line_put(&mut line, " R:");
    line_put_number(&mut line, right.whole_cm());
    assert(line_text(line) =~= status_line_of(left@, right@));
    line
}

/// Builds the status page of the two readings.
pub fn status_page(readings: Readings) -> (page: heapless::String<2048>)
    ensures
        page_text(page) == status_page_of(readings.left@, readings.right@),
        page_text(page).len() <= PAGE_CAPACITY,
        is_ascii_chars(page_text(page)),
{
    let left = readings.left;
    let right = readings.right;
    let mut page = page_new();
    proof {
        lemma_decimal_len_u32(left.units / 1000);
        lemma_decimal_len_u32(right.units / 1000);
    }
    proof {
        reveal_strlit("HTTP/1.1 200 OK\r\n");
    }
    page_put(&mut page, "HTTP/1.1 200 OK\r\n");
    proof {
        reveal_strlit("Content-Type: text/html\r\n");
    }
    page_put(&mut page, "Content-Type: text/html\r\n");
    proof {
        reveal_strlit("Connection: close\r\n");
    }
    page_put(&mut page, "Connection: close\r\n");
    proof {
        reveal_strlit("\r\n");
    }
    page_put(&mut page, "\r\n");
    proof {
        reveal_strlit("<!DOCTYPE html>\n");
    }
    page_put(&mut page, "<!DOCTYPE html>\n");
    proof {
        reveal_strlit("<html>\n");
    }
    page_put(&mut page, "<html>\n");
    proof {
        reveal_strlit("<head>\n");
    }
    page_put(&mut page, "<head>\n");
    proof {
        reveal_strlit("    <title>VisionAssist Status</title>\n");
    }
    page_put(&mut page, "    <title>VisionAssist Status</title>\n");
    proof {
        reveal_strlit("    <meta http-equiv=\"refresh\" content=\"2\">\n");
    }
    page_put(&mut page, "    <meta http-equiv=\"refresh\" content=\"2\">\n");
    proof {
        reveal_strlit("    <style>\n");
    }
    page_put(&mut page, "    <style>\n");
    proof {
        reveal_strlit("        body { font-family: Arial, sans-serif; margin: 20px; }\n");
    }
    page_put(&mut page, "        body { font-family: Arial, sans-serif; margin: 20px; }\n");
    proof {
        reveal_strlit("        .sensor { margin: 10px 0; padding: 10px; border: 1px solid #ccc; }\n");
    }
    page_put(&mut page, "        .sensor { margin: 10px 0; padding: 10px; border: 1px solid #ccc; }\n");
    proof {
        reveal_strlit("        .critical { background-color: #ffcccc; }\n");
    }
    page_put(&mut page, "        .critical { background-color: #ffcccc; }\n");
    proof {
        reveal_strlit("        .warning { background-color: #ffffcc; }\n");
    }
    page_put(&mut page, "        .warning { background-color: #ffffcc; }\n");
    proof {
        reveal_strlit("        .normal { background-color: #ccffcc; }\n");
    }
    page_put(&mut page, "        .normal { background-color: #ccffcc; }\n");
    proof {
        reveal_strlit("    </style>\n");
    }
    page_put(&mut page, "    </style>\n");
    proof {
        reveal_strlit("</head>\n");
    }
    page_put(&mut page, "</head>\n");
    proof {
        reveal_strlit("<body>\n");
    }
    page_put(&mut page, "<body>\n");
    proof {
        reveal_strlit("    <h1>VisionAssist Status</h1>\n");
    }
    page_put(&mut page, "    <h1>VisionAssist Status</h1>\n");
    proof {
        reveal_strlit("    <div class=\"sensor ");
    }
    page_put(&mut page, "    <div class=\"sensor ");
    page_put(&mut page, zone_class(left));
    proof {
        reveal_strlit("\">\n");
    }
    page_put(&mut page, "\">\n");
    proof {
        reveal_strlit("        <h2>Left Sensor</h2>\n");
    }
    page_put(&mut page, "        <h2>Left Sensor</h2>\n");
    proof {
        reveal_strlit("        <p>Distance: ");
    }
    page_put(&mut page, "        <p>Distance: ");
    page_put_number(&mut page, left.whole_cm());
    proof {
        reveal_strlit(" cm</p>\n");
    }
    page_put(&mut page, " cm</p>\n");
    proof {
        reveal_strlit("    </div>\n");
    }
    page_put(&mut page, "    </div>\n");
    proof {
        reveal_strlit("    <div class=\"sensor ");
    }
    page_put(&mut page, "    <div class=\"sensor ");
    page_put(&mut page, zone_class(right));
    proof {
        reveal_strlit("\">\n");
    }
    page_put(&mut page, "\">\n");
    proof {
        reveal_strlit("        <h2>Right Sensor</h2>\n");
    }
    page_put(&mut page, "        <h2>Right Sensor</h2>\n");
    proof {
        reveal_strlit("        <p>Distance: ");
    }
    page_put(&mut page, "        <p>Distance: ");
    page_put_number(&mut page, right.whole_cm());
    proof {
        reveal_strlit(" cm</p>\n");
    }
    page_put(&mut page, " cm</p>\n");
    proof {
        reveal_strlit("    </div>\n");
    }
    page_put(&mut page, "    </div>\n");
    proof {
        reveal_strlit("</body>\n");
    }
    page_put(&mut page, "</body>\n");
    proof {
        reveal_strlit("</html>\n");
    }
    page_put(&mut page, "</html>\n");
    assert(page_text(page) =~= status_page_of(left@, right@));
    page
}

} // verus!
