//! What holds of the tour's text as a whole.

use vstd::prelude::*;
use crate::text::{bool_text, digits, padded_digits};
use crate::tour::{
    blank, const_lines, eight_lines, greeting_lines, i32_lines, int_text_line, mut_lines,
    number_systems_lines, pi_value, range_text_line, shadowing_lines, suffix_float,
    suffix_types_lines, texts, tour_lines, types_float, types_lines, variable_lines,
};

verus! {

/// `line` stands at exactly one position of `lines`.
pub open spec fn occurs_once(lines: Seq<Seq<char>>, line: Seq<char>) -> bool {
    exists|i: int|
        0 <= i < lines.len() && lines[i] == line && forall|j: int|
            0 <= j < lines.len() && #[trigger] lines[j] == line ==> j == i
}

/// `a` stands at some position of `lines` before one that holds `b`.
pub open spec fn occurs_before(lines: Seq<Seq<char>>, a: Seq<char>, b: Seq<char>) -> bool {
    exists|i: int, j: int| 0 <= i < j < lines.len() && lines[i] == a && lines[j] == b
}

/// `run` stands in `lines` as consecutive lines, in its order.
pub open spec fn occurs_in_a_row(lines: Seq<Seq<char>>, run: Seq<Seq<char>>) -> bool {
    exists|i: int| 0 <= i && i + run.len() <= lines.len() && #[trigger] lines.subrange(i, i + run.len()) == run
}

/// The variable lines, written out.
proof fn variable_text()
    ensures
        variable_lines() == seq!["variable-1: a = 12"@, blank()],
{
    reveal_with_fuel(digits, 3);
    reveal_strlit("variable-1: a = ");
    reveal_strlit("variable-1: a = 12");
    assert(int_text_line("variable-1: a = "@, 12) =~= "variable-1: a = 12"@);
    assert(variable_lines() =~= seq!["variable-1: a = 12"@, blank()]);
}

/// The shadowing lines, written out.
proof fn shadowing_text()
    ensures
        shadowing_lines() == seq!["shadowing-1: a = 12"@, "shadowing-2: a = 33"@, blank()],
{
    reveal_with_fuel(digits, 3);
    reveal_strlit("shadowing-1: a = ");
    reveal_strlit("shadowing-1: a = 12");
    assert(int_text_line("shadowing-1: a = "@, 12) =~= "shadowing-1: a = 12"@);
    reveal_strlit("shadowing-2: a = ");
    reveal_strlit("shadowing-2: a = 33");
    assert(int_text_line("shadowing-2: a = "@, 33) =~= "shadowing-2: a = 33"@);
    assert(shadowing_lines() =~= seq!["shadowing-1: a = 12"@, "shadowing-2: a = 33"@, blank()]);
}

/// The mut lines, written out.
proof fn mut_text()
    ensures
        mut_lines() == seq!["mut-1: a = 12"@, "mut-2: a = 33"@, blank()],
{
    reveal_with_fuel(digits, 3);
    reveal_strlit("mut-1: a = ");
    reveal_strlit("mut-1: a = 12");
    assert(int_text_line("mut-1: a = "@, 12) =~= "mut-1: a = 12"@);
    reveal_strlit("mut-2: a = ");
    reveal_strlit("mut-2: a = 33");
    assert(int_text_line("mut-2: a = "@, 33) =~= "mut-2: a = 33"@);
    assert(mut_lines() =~= seq!["mut-1: a = 12"@, "mut-2: a = 33"@, blank()]);
}

/// The const lines, written out.
proof fn const_text()
    ensures
        const_lines() == seq!["const-1: PI = 3.141"@, blank()],
{
    reveal_with_fuel(digits, 2);
    reveal_with_fuel(padded_digits, 4);
    reveal_strlit("const-1: PI = ");
    reveal_strlit("const-1: PI = 3.141");
    assert("const-1: PI = "@ + pi_value().text() =~= "const-1: PI = 3.141"@);
    assert(const_lines() =~= seq!["const-1: PI = 3.141"@, blank()]);
}

/// The eight lines, written out.
proof fn eight_text()
    ensures
        eight_lines() == seq!["8-1 i8: from -128 to 127"@, "8-2 u8: from 0 to 255"@, blank()],
{
    reveal_with_fuel(digits, 4);
    reveal_strlit("8-1 i8: from ");
    reveal_strlit(" to ");
    reveal_strlit("8-1 i8: from -128 to 127");
    assert(range_text_line("8-1 i8: from "@, i8::MIN as int, i8::MAX as int) =~= "8-1 i8: from -128 to 127"@);
    reveal_strlit("8-2 u8: from ");
    reveal_strlit(" to ");
    reveal_strlit("8-2 u8: from 0 to 255");
    assert(range_text_line("8-2 u8: from "@, u8::MIN as int, u8::MAX as int) =~= "8-2 u8: from 0 to 255"@);
    assert(eight_lines() =~= seq!["8-1 i8: from -128 to 127"@, "8-2 u8: from 0 to 255"@, blank()]);
}

/// The i32 lines, written out.
proof fn i32_text()
    ensures
        i32_lines() == seq!["i32-1: from -2147483648 to 2147483647"@, blank()],
{
    reveal_with_fuel(digits, 11);
    reveal_strlit("i32-1: from ");
    reveal_strlit(" to ");
    reveal_strlit("i32-1: from -2147483648 to 2147483647");
    assert(range_text_line("i32-1: from "@, i32::MIN as int, i32::MAX as int) =~= "i32-1: from -2147483648 to 2147483647"@);
    assert(i32_lines() =~= seq!["i32-1: from -2147483648 to 2147483647"@, blank()]);
}

/// The types lines, written out.
proof fn types_text()
    ensures
        types_lines() == seq!["types-1: i8:   a = 20"@, "types-2: bool: b = false"@, "types-3: char: c = a"@, "types-4: f32:  d = 4.4321"@, blank()],
{
    reveal_with_fuel(digits, 3);
    reveal_with_fuel(padded_digits, 5);
    reveal_strlit("types-1: i8:   a = ");
    reveal_strlit("types-1: i8:   a = 20");
    assert(int_text_line("types-1: i8:   a = "@, 20) =~= "types-1: i8:   a = 20"@);
    reveal_strlit("types-2: bool: b = ");
    reveal_strlit("false");
    reveal_strlit("types-2: bool: b = false");
    assert("types-2: bool: b = "@ + bool_text(false) =~= "types-2: bool: b = false"@);
    reveal_strlit("types-3: char: c = ");
    reveal_strlit("types-3: char: c = a");
    assert("types-3: char: c = "@ + seq!['a'] =~= "types-3: char: c = a"@);
    reveal_strlit("types-4: f32:  d = ");
    reveal_strlit("types-4: f32:  d = 4.4321");
    assert("types-4: f32:  d = "@ + types_float().text() =~= "types-4: f32:  d = 4.4321"@);
    assert(types_lines() =~= seq!["types-1: i8:   a = 20"@, "types-2: bool: b = false"@, "types-3: char: c = a"@, "types-4: f32:  d = 4.4321"@, blank()]);
}

/// The suffix types lines, written out.
proof fn suffix_types_text()
    ensures
        suffix_types_lines() == seq!["suffix-types-1: f32: a = 3"@, "suffix-types-2: i8:  b = 42"@],
{
    reveal_with_fuel(digits, 3);
    reveal_strlit("suffix-types-1: f32: a = ");
    reveal_strlit("suffix-types-1: f32: a = 3");
    assert("suffix-types-1: f32: a = "@ + suffix_float().text() =~= "suffix-types-1: f32: a = 3"@);
    reveal_strlit("suffix-types-2: i8:  b = ");
    reveal_strlit("suffix-types-2: i8:  b = 42");
    assert(int_text_line("suffix-types-2: i8:  b = "@, 42) =~= "suffix-types-2: i8:  b = 42"@);
    assert(suffix_types_lines() =~= seq!["suffix-types-1: f32: a = 3"@, "suffix-types-2: i8:  b = 42"@]);
}

/// The whole tour, written out line by line.
pub open spec fn tour_text() -> Seq<Seq<char>> {
    seq![
        "Hello Gerald!"@,
        blank(),
        "variable-1: a = 12"@,
        blank(),
        "shadowing-1: a = 12"@,
        "shadowing-2: a = 33"@,
        blank(),
        "mut-1: a = 12"@,
        "mut-2: a = 33"@,
        blank(),
        "const-1: PI = 3.141"@,
        blank(),
        "8-1 i8: from -128 to 127"@,
        "8-2 u8: from 0 to 255"@,
        blank(),
        "i32-1: from -2147483648 to 2147483647"@,
        blank(),
        "types-1: i8:   a = 20"@,
        "types-2: bool: b = false"@,
        "types-3: char: c = a"@,
        "types-4: f32:  d = 4.4321"@,
        blank(),
        "suffix-types-1: f32: a = 3"@,
        "suffix-types-2: i8:  b = 42"@,
    ]
}

/// The tour's lines are the text written out in `tour_text`.
pub proof fn tour_lines_are_tour_text()
    ensures
        tour_lines() == tour_text(),
{
    variable_text();
    shadowing_text();
    mut_text();
    const_text();
    eight_text();
    i32_text();
    types_text();
    suffix_types_text();
    assert(tour_lines() =~= tour_text());
}

/// The first character of each line of `tour_text`; a space for an empty line.
spec fn tour_heads() -> Seq<char> {
    seq!['H', ' ', 'v', ' ', 's', 's', ' ', 'm', 'm', ' ', 'c', ' ', '8', '8', ' ', 'i', ' ', 't', 't', 't', 't', ' ', 's', 's']
}

/// Line `j` of `tour_text` is empty or begins with `tour_heads()[j]`.
proof fn tour_head(j: int)
    requires
        0 <= j < tour_text().len(),
    ensures
        tour_text()[j].len() == 0 || tour_text()[j][0] == tour_heads()[j],
{
    reveal_strlit("Hello Gerald!");
    reveal_strlit("variable-1: a = 12");
    reveal_strlit("shadowing-1: a = 12");
    reveal_strlit("shadowing-2: a = 33");
    reveal_strlit("mut-1: a = 12");
    reveal_strlit("mut-2: a = 33");
    reveal_strlit("const-1: PI = 3.141");
    reveal_strlit("8-1 i8: from -128 to 127");
    reveal_strlit("8-2 u8: from 0 to 255");
    reveal_strlit("i32-1: from -2147483648 to 2147483647");
    reveal_strlit("types-1: i8:   a = 20");
    reveal_strlit("types-2: bool: b = false");
    reveal_strlit("types-3: char: c = a");
    reveal_strlit("types-4: f32:  d = 4.4321");
    reveal_strlit("suffix-types-1: f32: a = 3");
    reveal_strlit("suffix-types-2: i8:  b = 42");
}

/// Running the tour twice gives the same lines: its text depends on nothing.
pub proof fn tour_is_deterministic(first: Seq<String>, second: Seq<String>)
    requires
        texts(first) == tour_lines(),
        texts(second) == tour_lines(),
    ensures
        texts(first) == texts(second),
{
}

/// The greeting comes first, then an empty line, and the greeting is
/// shown nowhere else.
pub proof fn greeting_comes_first_and_once()
    ensures
        tour_lines()[0] == "Hello Gerald!"@,
        tour_lines()[1] == blank(),
        occurs_once(tour_lines(), "Hello Gerald!"@),
{
    tour_lines_are_tour_text();
    reveal_strlit("Hello Gerald!");
    assert forall|j: int|
        0 <= j < tour_lines().len() && #[trigger] tour_lines()[j] == "Hello Gerald!"@ implies j == 0 by {
        tour_head(j);
    }
    assert(tour_lines()[0] == "Hello Gerald!"@);
}

/// The variable demonstration shows `12` before the shadowing demonstration
/// shows `12` and then `33`.
pub proof fn variable_then_shadowing()
    ensures
        occurs_before(tour_lines(), "variable-1: a = 12"@, "shadowing-1: a = 12"@),
        occurs_before(tour_lines(), "shadowing-1: a = 12"@, "shadowing-2: a = 33"@),
{
    tour_lines_are_tour_text();
    assert(tour_lines()[2] == "variable-1: a = 12"@);
    assert(tour_lines()[4] == "shadowing-1: a = 12"@);
    assert(tour_lines()[5] == "shadowing-2: a = 33"@);
}

/// The mutable binding shows `12` before it shows `33`.
pub proof fn mutation_in_order()
    ensures
        occurs_before(tour_lines(), "mut-1: a = 12"@, "mut-2: a = 33"@),
{
    tour_lines_are_tour_text();
    assert(tour_lines()[7] == "mut-1: a = 12"@);
    assert(tour_lines()[8] == "mut-2: a = 33"@);
}

/// The constant is shown exactly once, as `3.141`.
pub proof fn constant_shown_once()
    ensures
        occurs_once(tour_lines(), "const-1: PI = 3.141"@),
{
    tour_lines_are_tour_text();
    reveal_strlit("const-1: PI = 3.141");
    assert(tour_lines()[10] == "const-1: PI = 3.141"@);
    assert forall|j: int|
        0 <= j < tour_lines().len() && #[trigger] tour_lines()[j] == "const-1: PI = 3.141"@ implies j
        == 10 by {
        tour_head(j);
    }
}

/// The ranges of `i8` and of `u8` are shown on consecutive lines, `i8` first.
pub proof fn eight_bit_ranges_together()
    ensures
        occurs_in_a_row(
            tour_lines(),
            seq!["8-1 i8: from -128 to 127"@, "8-2 u8: from 0 to 255"@],
        ),
{
    tour_lines_are_tour_text();
    let run = seq!["8-1 i8: from -128 to 127"@, "8-2 u8: from 0 to 255"@];
    assert(tour_lines().subrange(12, 12int + run.len()) =~= run);
}

/// The range of `i32` is shown exactly once.
pub proof fn i32_range_shown_once()
    ensures
        occurs_once(tour_lines(), "i32-1: from -2147483648 to 2147483647"@),
{
    tour_lines_are_tour_text();
    reveal_strlit("i32-1: from -2147483648 to 2147483647");
    assert(tour_lines()[15] == "i32-1: from -2147483648 to 2147483647"@);
    assert forall|j: int|
        0 <= j < tour_lines().len() && #[trigger] tour_lines()[j]
            == "i32-1: from -2147483648 to 2147483647"@ implies j == 15 by {
        tour_head(j);
    }
}

/// The four typed bindings are shown on consecutive lines, in order: `20`,
/// `false`, `a`, `4.4321`.
pub proof fn typed_bindings_in_order()
    ensures
        occurs_in_a_row(
            tour_lines(),
            seq![
                "types-1: i8:   a = 20"@,
                "types-2: bool: b = false"@,
                "types-3: char: c = a"@,
                "types-4: f32:  d = 4.4321"@,
            ],
        ),
{
    tour_lines_are_tour_text();
    let run = seq![
        "types-1: i8:   a = 20"@,
        "types-2: bool: b = false"@,
        "types-3: char: c = a"@,
        "types-4: f32:  d = 4.4321"@,
    ];
    assert(tour_lines().subrange(17, 17int + run.len()) =~= run);
}

/// The two suffixed literals, `3` and `42`, are the last two lines: no
/// empty line follows them.
pub proof fn suffixed_literals_end_the_tour()
    ensures
        tour_lines().len() >= 2,
        tour_lines().subrange(tour_lines().len() - 2, tour_lines().len() as int) == seq![
            "suffix-types-1: f32: a = 3"@,
            "suffix-types-2: i8:  b = 42"@,
        ],
{
    tour_lines_are_tour_text();
    assert(tour_lines().subrange(22, 24) =~= seq![
        "suffix-types-1: f32: a = 3"@,
        "suffix-types-2: i8:  b = 42"@,
    ]);
}

/// The demonstrations follow the greeting in a fixed order, each once, and
/// the number-systems demonstration adds no line.
pub proof fn demonstrations_in_order()
    ensures
        tour_lines() == greeting_lines() + variable_lines() + shadowing_lines() + mut_lines()
            + const_lines() + eight_lines() + i32_lines() + types_lines() + suffix_types_lines(),
        number_systems_lines().len() == 0,
{
    assert(tour_lines() =~= greeting_lines() + variable_lines() + shadowing_lines() + mut_lines()
        + const_lines() + eight_lines() + i32_lines() + types_lines() + suffix_types_lines());
}

} // verus!
