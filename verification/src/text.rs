//! The text that the plugin writes: addresses in the form that Rust's
//! `{:?}` gives a pointer, and the lines of the plugin's own log.

use vstd::prelude::*;
use vstd::string::*;

verus! {

/// The sixteen digits of lower-case hexadecimal, in order of value.
pub open spec fn hex_table() -> Seq<char> {
    seq!['0', '1', '2', '3', '4', '5', '6', '7', '8', '9', 'a', 'b', 'c', 'd', 'e', 'f']
}

/// The lower-case hexadecimal digit of value `d` (for `d < 16`).
pub open spec fn hex_digit(d: nat) -> char {
    hex_table()[d as int]
}

/// The value of a lower-case hexadecimal digit.
pub open spec fn digit_value(c: char) -> nat {
    if c == '0' { 0 }
    else if c == '1' { 1 }
    else if c == '2' { 2 }
    else if c == '3' { 3 }
    else if c == '4' { 4 }
    else if c == '5' { 5 }
    else if c == '6' { 6 }
    else if c == '7' { 7 }
    else if c == '8' { 8 }
    else if c == '9' { 9 }
    else if c == 'a' { 10 }
    else if c == 'b' { 11 }
    else if c == 'c' { 12 }
    else if c == 'd' { 13 }
    else if c == 'e' { 14 }
    else { 15 }
}

/// The digits of `v` in lower-case hexadecimal, most significant first, without
/// leading zeros (zero itself is the single digit `0`).
pub open spec fn hex_digits(v: nat) -> Seq<char>
    decreases v,
{
    if v < 16 {
        seq![hex_digit(v)]
    } else {
        hex_digits(v / 16).push(hex_digit(v % 16))
    }
}

/// The number that a string of hexadecimal digits denotes.
pub open spec fn hex_value(s: Seq<char>) -> nat
    decreases s.len(),
{
    if s.len() == 0 {
        0
    } else {
        hex_value(s.drop_last()) * 16 + digit_value(s.last())
    }
}

/// An address as `{:?}` shows a pointer: `0x` and its lower-case hexadecimal digits.
pub open spec fn address_text(addr: u64) -> Seq<char> {
    seq!['0', 'x'] + hex_digits(addr as nat)
}

/// The string of the single hexadecimal digit `d`.
fn hex_digit_str(d: u64) -> (s: &'static str)
    requires
        d < 16,
    ensures
        s@ == seq![hex_digit(d as nat)],
{
    let table = "0123456789abcdef";
    proof {
        reveal_strlit("0123456789abcdef");
    }
    assert(table@ =~= hex_table());
    table.substring_char(d as usize, d as usize + 1)
}

/// Appends the hexadecimal digits of `v` to `out`.
fn push_hex_digits(v: u64, out: &mut String)
    ensures
        final(out)@ == old(out)@ + hex_digits(v as nat),
    decreases v,
{
    if v >= 16 {
        push_hex_digits(v / 16, out);
    }
    out.append(hex_digit_str(v % 16));
}

/// `addr` as `{:?}` shows a pointer, e.g. `0x1f40`; the null pointer is `0x0`.
pub fn address_string(addr: u64) -> (s: String)
    ensures
        s@ == address_text(addr),
        s@.take(2) == seq!['0', 'x'],
        hex_value(s@.skip(2)) == addr,
{
    proof {
        lemma_address_text_reads_back(addr);
    }
    let mut s = String::from_str("0x");
    proof {
        reveal_strlit("0x");
    }
    push_hex_digits(addr, &mut s);
    s
}

/// The log line that reports the address of the game's assembly image.
pub open spec fn image_message_text(image: u64) -> Seq<char> {
    "img ptr: "@ + address_text(image)
}

/// The log line that reports the address of the game's assembly image.
pub fn image_message(image: u64) -> (s: String)
    ensures
        s@ == image_message_text(image),
        s@.take(11) == "img ptr: 0x"@,
        hex_value(s@.skip(11)) == image,
{
    proof {
        lemma_image_message_reads_back(image);
    }
    let mut s = String::from_str("img ptr: ");
    s.append(address_string(image).as_str());
    s
}

/// The log line for a class that was looked up and not found.
pub open spec fn class_missing_text(name: Seq<char>) -> Seq<char> {
    "[-] "@ + name
}

/// The log line for a class that was looked up and not found.
pub fn class_missing_message(name: &str) -> (s: String)
    ensures
        s@ == class_missing_text(name@),
        s@.take(4) == "[-] "@,
        s@.skip(4) == name@,
{
    proof {
        lemma_class_messages_hold_name(name@);
    }
    let mut s = String::from_str("[-] ");
    s.append(name);
    s
}

/// The log line for a class that was looked up and found.
pub open spec fn class_found_text(name: Seq<char>) -> Seq<char> {
    "[+] FOUND CLASS: "@ + name
}

/// The log line for a class that was looked up and found.
pub fn class_found_message(name: &str) -> (s: String)
    ensures
        s@ == class_found_text(name@),
        s@.take(17) == "[+] FOUND CLASS: "@,
        s@.skip(17) == name@,
{
    proof {
        lemma_class_messages_hold_name(name@);
    }
    let mut s = String::from_str("[+] FOUND CLASS: ");
    s.append(name);
    s
}

/// The log line that reports the address of a method of a found class.
pub open spec fn method_address_text(addr: u64) -> Seq<char> {
    "Please "@ + address_text(addr)
}

/// The log line that reports the address of a method of a found class.
pub fn method_address_message(addr: u64) -> (s: String)
    ensures
        s@ == method_address_text(addr),
        s@.take(9) == "Please 0x"@,
        hex_value(s@.skip(9)) == addr,
{
    proof {
        lemma_method_address_reads_back(addr);
    }
    let mut s = String::from_str("Please ");
    s.append(address_string(addr).as_str());
    s
}

/// What the plugin appends to its log file for one message: the message and a line end.
pub fn log_file_line(msg: &str) -> (s: String)
    ensures
        s@ == msg@.push('\n'),
{
    let mut s = String::from_str(msg);
    s.append("\n");
    proof {
        reveal_strlit("\n");
    }
    s
}

/// Reading the digits of an address back gives the address: the hexadecimal
/// text of `v` denotes `v`.
pub proof fn lemma_hex_digits_value(v: nat)
    ensures
        hex_value(hex_digits(v)) == v,
    decreases v,
{
    if v < 16 {
        let s = hex_digits(v);
        assert(s.drop_last() =~= Seq::<char>::empty());
        assert(digit_value(hex_digit(v)) == v);
        assert(hex_value(s) == hex_value(s.drop_last()) * 16 + digit_value(s.last()));
    } else {
        lemma_hex_digits_value(v / 16);
        let s = hex_digits(v);
        assert(s.drop_last() =~= hex_digits(v / 16));
        assert(s.last() == hex_digit(v % 16));
        assert(digit_value(hex_digit(v % 16)) == v % 16);
        assert(hex_value(s) == hex_value(hex_digits(v / 16)) * 16 + digit_value(s.last()));
        assert((v / 16) * 16 + v % 16 == v) by (nonlinear_arith);
    }
}

/// The hexadecimal text of a number is never empty and has no leading zero:
/// it starts with `0` only for zero itself, and every character is a digit.
pub proof fn lemma_hex_digits_canonical(v: nat)
    ensures
        hex_digits(v).len() >= 1,
        hex_digits(v)[0] == '0' <==> v == 0,
        forall|i: int| 0 <= i < hex_digits(v).len() ==> hex_table().contains(#[trigger] hex_digits(v)[i]),
    decreases v,
{
    if v < 16 {
        assert(hex_table()[v as int] == hex_digit(v));
    } else {
        lemma_hex_digits_canonical(v / 16);
        let s = hex_digits(v);
        assert forall|i: int| 0 <= i < s.len() implies hex_table().contains(#[trigger] s[i]) by {
            if i == s.len() - 1 {
                assert(hex_table()[(v % 16) as int] == s[i]);
            } else {
                assert(s[i] == hex_digits(v / 16)[i]);
            }
        }
    }
}

/// Two addresses that print alike are the same address.
pub proof fn lemma_address_text_injective(a: u64, b: u64)
    requires
        address_text(a) == address_text(b),
    ensures
        a == b,
{
    assert(hex_digits(a as nat) =~= address_text(a).subrange(2, address_text(a).len() as int));
    assert(hex_digits(b as nat) =~= address_text(b).subrange(2, address_text(b).len() as int));
    lemma_hex_digits_value(a as nat);
    lemma_hex_digits_value(b as nat);
}

/// An address prints as `0x` and digits that read back as the whole address.
pub proof fn lemma_address_text_reads_back(addr: u64)
    ensures
        address_text(addr).len() >= 3,
        address_text(addr).take(2) == seq!['0', 'x'],
        hex_value(address_text(addr).skip(2)) == addr,
{
    let t = address_text(addr);
    lemma_hex_digits_canonical(addr as nat);
    lemma_hex_digits_value(addr as nat);
    assert(t.take(2) =~= seq!['0', 'x']);
    assert(t.skip(2) =~= hex_digits(addr as nat));
}

/// The image line is `img ptr: 0x` and digits that read back as the whole image address.
pub proof fn lemma_image_message_reads_back(image: u64)
    ensures
        image_message_text(image).take(11) == "img ptr: 0x"@,
        hex_value(image_message_text(image).skip(11)) == image,
{
    reveal_strlit("img ptr: ");
    reveal_strlit("img ptr: 0x");
    lemma_address_text_reads_back(image);
    let t = image_message_text(image);
    let a = address_text(image);
    assert("img ptr: "@.len() == 9);
    assert(t.take(11) =~= "img ptr: 0x"@) by {
        assert(a[0] == '0' && a[1] == 'x') by {
            assert(a.take(2)[0] == a[0] && a.take(2)[1] == a[1]);
        }
    }
    assert(t.skip(11) =~= a.skip(2));
}

/// The method line is `Please 0x` and digits that read back as the whole
/// method address, all 64 bits of it.
pub proof fn lemma_method_address_reads_back(addr: u64)
    ensures
        method_address_text(addr).take(9) == "Please 0x"@,
        hex_value(method_address_text(addr).skip(9)) == addr,
{
    reveal_strlit("Please ");
    reveal_strlit("Please 0x");
    lemma_address_text_reads_back(addr);
    let t = method_address_text(addr);
    let a = address_text(addr);
    assert("Please "@.len() == 7);
    assert(t.take(9) =~= "Please 0x"@) by {
        assert(a[0] == '0' && a[1] == 'x') by {
            assert(a.take(2)[0] == a[0] && a.take(2)[1] == a[1]);
        }
    }
    assert(t.skip(9) =~= a.skip(2));
}

/// The class lines are their marker followed by the class name, unchanged.
pub proof fn lemma_class_messages_hold_name(name: Seq<char>)
    ensures
        class_missing_text(name).take(4) == "[-] "@,
        class_missing_text(name).skip(4) == name,
        class_found_text(name).take(17) == "[+] FOUND CLASS: "@,
        class_found_text(name).skip(17) == name,
{
    reveal_strlit("[-] ");
    reveal_strlit("[+] FOUND CLASS: ");
    assert(class_missing_text(name).take(4) =~= "[-] "@);
    assert(class_missing_text(name).skip(4) =~= name);
    assert(class_found_text(name).take(17) =~= "[+] FOUND CLASS: "@);
    assert(class_found_text(name).skip(17) =~= name);
}

} // verus!
