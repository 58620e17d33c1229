//! The demonstrations, each as the lines of text it shows, and the tour that
//! runs them in order after a greeting.

use vstd::prelude::*;
use crate::decimal::{pow10, Decimal};
use crate::text::{bool_text, int_text, push_bool, push_char, push_int};

verus! {

/// The texts of a sequence of strings.
pub open spec fn texts(v: Seq<String>) -> Seq<Seq<char>> {
    v.map_values(|s: String| s@)
}

/// An empty line.
pub open spec fn blank() -> Seq<char> {
    Seq::empty()
}

/// A labelled value: the label, then the value's text.
pub open spec fn int_text_line(label: Seq<char>, n: int) -> Seq<char> {
    label + int_text(n)
}

/// A labelled range: the label, the low end, ` to `, the high end.
pub open spec fn range_text_line(label: Seq<char>, lo: int, hi: int) -> Seq<char> {
    label + int_text(lo) + " to "@ + int_text(hi)
}

/// The approximation of pi that the constant demonstration shows: `3.141`.
pub open spec fn pi_value() -> Decimal {
    Decimal { negative: false, whole: 3, frac: 141, frac_digits: 3 }
}

/// The greeting and the empty line after it.
pub open spec fn greeting_lines() -> Seq<Seq<char>> {
    seq!["Hello Gerald!"@, blank()]
}

/// A binding declared first and assigned `12` afterwards.
pub open spec fn variable_lines() -> Seq<Seq<char>> {
    seq![int_text_line("variable-1: a = "@, 12), blank()]
}

/// A binding holding `12`, then a second binding of the same name holding `33`.
pub open spec fn shadowing_lines() -> Seq<Seq<char>> {
    seq![
        int_text_line("shadowing-1: a = "@, 12),
        int_text_line("shadowing-2: a = "@, 33),
        blank(),
    ]
}

/// One mutable binding, assigned `12` and then `33`.
pub open spec fn mut_lines() -> Seq<Seq<char>> {
    seq![int_text_line("mut-1: a = "@, 12), int_text_line("mut-2: a = "@, 33), blank()]
}

/// The constant's value.
pub open spec fn const_lines() -> Seq<Seq<char>> {
    seq!["const-1: PI = "@ + pi_value().text(), blank()]
}

/// The ranges of the signed and the unsigned 8-bit integers.
pub open spec fn eight_lines() -> Seq<Seq<char>> {
    seq![
        range_text_line("8-1 i8: from "@, i8::MIN as int, i8::MAX as int),
        range_text_line("8-2 u8: from "@, u8::MIN as int, u8::MAX as int),
        blank(),
    ]
}

/// The range of the signed 32-bit integers.
pub open spec fn i32_lines() -> Seq<Seq<char>> {
    seq![range_text_line("i32-1: from "@, i32::MIN as int, i32::MAX as int), blank()]
}

/// `4.4321` as a 32-bit float prints it.
pub open spec fn types_float() -> Decimal {
    Decimal { negative: false, whole: 4, frac: 4321, frac_digits: 4 }
}

/// Four bindings with declared types: an `i8`, a `bool`, a `char`, an `f32`.
pub open spec fn types_lines() -> Seq<Seq<char>> {
    seq![
        int_text_line("types-1: i8:   a = "@, 20),
        "types-2: bool: b = "@ + bool_text(false),
        "types-3: char: c = "@ + seq!['a'],
        "types-4: f32:  d = "@ + types_float().text(),
        blank(),
    ]
}

/// `3.0f32` as it prints.
pub open spec fn suffix_float() -> Decimal {
    Decimal { negative: false, whole: 3, frac: 0, frac_digits: 0 }
}

/// Two literals typed by their suffixes, an `f32` and an `i8`; no empty line
/// follows.
pub open spec fn suffix_types_lines() -> Seq<Seq<char>> {
    seq![
        "suffix-types-1: f32: a = "@ + suffix_float().text(),
        int_text_line("suffix-types-2: i8:  b = "@, 42),
    ]
}

/// The number-systems demonstration shows nothing yet.
pub open spec fn number_systems_lines() -> Seq<Seq<char>> {
    Seq::empty()
}

/// The whole tour: the greeting, then each demonstration in its fixed order.
pub open spec fn tour_lines() -> Seq<Seq<char>> {
    greeting_lines() + variable_lines() + shadowing_lines() + mut_lines() + const_lines()
        + eight_lines() + i32_lines() + types_lines() + suffix_types_lines()
        + number_systems_lines()
}

/// The approximation of pi shown by the constant demonstration.
pub fn pi() -> (r: Decimal)
    ensures
        r == pi_value(),
        r.wf(),
{
    proof {
        reveal_with_fuel(pow10, 4);
    }
    Decimal { negative: false, whole: 3, frac: 141, frac_digits: 3 }
}

/// A line holding the label, then `n`.
fn int_line(label: &str, n: i64) -> (r: String)
    ensures
        r@ == int_text_line(label@, n as int),
{
    let mut s = String::from_str(label);
    push_int(&mut s, n);
    s
}

/// A line holding the label, then `lo`, ` to `, `hi`.
fn range_line(label: &str, lo: i64, hi: i64) -> (r: String)
    ensures
        r@ == range_text_line(label@, lo as int, hi as int),
{
    let mut s = String::from_str(label);
    push_int(&mut s, lo);
    s.append(" to ");
    push_int(&mut s, hi);
    s
}

/// Appends the lines of `more`.
fn extend(lines: &mut Vec<String>, more: Vec<String>)
    ensures
        texts(final(lines)@) == texts(old(lines)@) + texts(more@),
{
    let ghost added = more@;
    let mut more = more;
    lines.append(&mut more);
    assert(texts(final(lines)@) =~= texts(old(lines)@) + texts(added));
}

/// The greeting and the empty line after it.
pub fn greeting() -> (r: Vec<String>)
    ensures
        texts(r@) == greeting_lines(),
{
    let mut lines: Vec<String> = Vec::new();
    lines.push(String::from_str("Hello Gerald!"));
    lines.push(String::new());
    assert(texts(lines@) =~= greeting_lines());
    lines
}

/// Declares a binding, then assigns it `12`.
pub fn eg_variable() -> (r: Vec<String>)
    ensures
        texts(r@) == variable_lines(),
{
    let a: i32;
    a = 12;
    let mut lines: Vec<String> = Vec::new();
    lines.push(int_line("variable-1: a = ", a as i64));
    lines.push(String::new());
    assert(texts(lines@) =~= variable_lines());
    lines
}

/// Binds `12`, then binds the same name anew to `33`: the first binding is
/// hidden, not changed.
pub fn eg_shadowing() -> (r: Vec<String>)
    ensures
        texts(r@) == shadowing_lines(),
{
    let mut lines: Vec<String> = Vec::new();
    let a: i32;
    a = 12;
    lines.push(int_line("shadowing-1: a = ", a as i64));
    let a: i32 = 33;
    lines.push(int_line("shadowing-2: a = ", a as i64));
    lines.push(String::new());
    assert(texts(lines@) =~= shadowing_lines());
    lines
}

/// Assigns `12` to one mutable binding, then `33` to the same binding.
pub fn eg_mut() -> (r: Vec<String>)
    ensures
        texts(r@) == mut_lines(),
{
    let mut lines: Vec<String> = Vec::new();
    let mut a: i32;
    a = 12;
    lines.push(int_line("mut-1: a = ", a as i64));
    a = 33;
    lines.push(int_line("mut-2: a = ", a as i64));
    lines.push(String::new());
    assert(texts(lines@) =~= mut_lines());
    lines
}

/// Shows the constant approximation of pi.
pub fn eg_const() -> (r: Vec<String>)
    ensures
        texts(r@) == const_lines(),
{
    let mut line = String::from_str("const-1: PI = ");
    pi().push_text(&mut line);
    let mut lines: Vec<String> = Vec::new();
    lines.push(line);
    lines.push(String::new());
    assert(texts(lines@) =~= const_lines());
    lines
}

/// Shows the least and the greatest `i8` and `u8`.
pub fn eg_8() -> (r: Vec<String>)
    ensures
        texts(r@) == eight_lines(),
{
    let mut lines: Vec<String> = Vec::new();
    lines.push(range_line("8-1 i8: from ", i8::MIN as i64, i8::MAX as i64));
    lines.push(range_line("8-2 u8: from ", u8::MIN as i64, u8::MAX as i64));
    lines.push(String::new());
    assert(texts(lines@) =~= eight_lines());
    lines
}

/// Shows the least and the greatest `i32`.
pub fn eg_i32() -> (r: Vec<String>)
    ensures
        texts(r@) == i32_lines(),
{
    let mut lines: Vec<String> = Vec::new();
    lines.push(range_line("i32-1: from ", i32::MIN as i64, i32::MAX as i64));
    lines.push(String::new());
    assert(texts(lines@) =~= i32_lines());
    lines
}

/// Shows four bindings of declared types: an `i8`, a `bool`, a `char` and an
/// `f32` (held as the numeral it prints as).
pub fn eg_types() -> (r: Vec<String>)
    ensures
        texts(r@) == types_lines(),
{
    let a: i8 = 20;
    let b: bool = false;
    let c: char = 'a';
    let d = Decimal { negative: false, whole: 4, frac: 4321, frac_digits: 4 };
    let mut lines: Vec<String> = Vec::new();
    lines.push(int_line("types-1: i8:   a = ", a as i64));
    let mut line = String::from_str("types-2: bool: b = ");
    push_bool(&mut line, b);
    lines.push(line);
    let mut line = String::from_str("types-3: char: c = ");
    push_char(&mut line, c);
    assert(line@ =~= "types-3: char: c = "@ + seq![c]);
    lines.push(line);
    let mut line = String::from_str("types-4: f32:  d = ");
    d.push_text(&mut line);
    lines.push(line);
    lines.push(String::new());
    assert(texts(lines@) =~= types_lines());
    lines
}

/// Shows two literals typed by their suffixes: `3.0f32` and `42i8`.
pub fn eg_suffix_types() -> (r: Vec<String>)
    ensures
        texts(r@) == suffix_types_lines(),
{
    let a = Decimal { negative: false, whole: 3, frac: 0, frac_digits: 0 };
    let b: i8 = 42i8;
    let mut lines: Vec<String> = Vec::new();
    let mut line = String::from_str("suffix-types-1: f32: a = ");
    a.push_text(&mut line);
    lines.push(line);
    lines.push(int_line("suffix-types-2: i8:  b = ", b as i64));
    assert(texts(lines@) =~= suffix_types_lines());
    lines
}

/// Alternate bases of numeric literals are not shown yet: no lines.
pub fn eg_number_systems() -> (r: Vec<String>)
    ensures
        texts(r@) == number_systems_lines(),
{
    let lines: Vec<String> = Vec::new();
    assert(texts(lines@) =~= number_systems_lines());
    lines
}

/// The greeting, then each demonstration in order: variable, shadowing,
/// mutability, constant, 8-bit ranges, 32-bit range, typed bindings,
/// suffixed literals, number systems.
pub fn tour() -> (r: Vec<String>)
    ensures
        texts(r@) == tour_lines(),
{
    let mut lines = greeting();
    extend(&mut lines, eg_variable());
    extend(&mut lines, eg_shadowing());
    extend(&mut lines, eg_mut());
    extend(&mut lines, eg_const());
    extend(&mut lines, eg_8());
    extend(&mut lines, eg_i32());
    extend(&mut lines, eg_types());
    extend(&mut lines, eg_suffix_types());
    extend(&mut lines, eg_number_systems());
    lines
}

} // verus!
