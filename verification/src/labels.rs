//! Symbol construction for the code generator: decimal rendering of
//! counters and the builders for comparison labels, function-scoped branch
//! labels, return-site labels and static-variable symbols. The uniqueness
//! arguments for generated labels live here as well.

use vstd::prelude::*;
use vstd::string::*;

verus! {

/// The character for one decimal digit value.
pub open spec fn decimal_digit(d: nat) -> char {
    if d == 0 {
        '0'
    } else if d == 1 {
        '1'
    } else if d == 2 {
        '2'
    } else if d == 3 {
        '3'
    } else if d == 4 {
        '4'
    } else if d == 5 {
        '5'
    } else if d == 6 {
        '6'
    } else if d == 7 {
        '7'
    } else if d == 8 {
        '8'
    } else {
        '9'
    }
}

/// The decimal rendering of a natural number, most significant digit first.
pub open spec fn decimal(n: nat) -> Seq<char>
    decreases n,
{
    if n < 10 {
        seq![decimal_digit(n)]
    } else {
        decimal(n / 10).push(decimal_digit(n % 10))
    }
}

/// Whether a character is a decimal digit character.
pub open spec fn is_digit_char(c: char) -> bool {
    c == '0' || c == '1' || c == '2' || c == '3' || c == '4' || c == '5' || c == '6' || c == '7'
        || c == '8' || c == '9'
}

/// Whether every character of a sequence is a decimal digit.
pub open spec fn all_digits(s: Seq<char>) -> bool {
    forall|i: int| 0 <= i < s.len() ==> is_digit_char(s[i])
}

/// The name shared by the two labels of one comparison lowering:
/// `<module>.<function>.<counter>`.
pub open spec fn unique_path(module: Seq<char>, function: Seq<char>, counter: nat) -> Seq<char> {
    module + "."@ + function + "."@ + decimal(counter)
}

/// The branch-taken label of one comparison lowering.
pub open spec fn true_label(module: Seq<char>, function: Seq<char>, counter: nat) -> Seq<char> {
    "RETURN_TRUE_"@ + unique_path(module, function, counter)
}

/// The fall-through label of one comparison lowering.
pub open spec fn false_label(module: Seq<char>, function: Seq<char>, counter: nat) -> Seq<char> {
    "RETURN_FALSE_"@ + unique_path(module, function, counter)
}

/// A branch label scoped to its enclosing function: `<function>$<label>`.
pub open spec fn scoped_label(function: Seq<char>, label: Seq<char>) -> Seq<char> {
    function + "$"@ + label
}

/// The return-site label of one call: `<caller>$ret.<counter>`.
pub open spec fn return_site_label(caller: Seq<char>, counter: nat) -> Seq<char> {
    caller + "$ret."@ + decimal(counter)
}

/// The assembler symbol of one static variable: `<module>.<index>`.
pub open spec fn static_symbol(module: Seq<char>, index: nat) -> Seq<char> {
    module + "."@ + decimal(index)
}

/// Every character of a decimal rendering is a digit.
pub proof fn lemma_decimal_all_digits(n: nat)
    ensures
        all_digits(decimal(n)),
    decreases n,
{
    if n < 10 {
        assert(is_digit_char(decimal_digit(n)));
    } else {
        lemma_decimal_all_digits(n / 10);
        assert forall|i: int| 0 <= i < decimal(n).len() implies is_digit_char(
            decimal(n)[i],
        ) by {
            if i < decimal(n / 10).len() {
                assert(decimal(n)[i] == decimal(n / 10)[i]);
            } else {
                assert(decimal(n)[i] == decimal_digit(n % 10));
            }
        }
    }
}

/// A decimal rendering is never empty.
pub proof fn lemma_decimal_len(n: nat)
    ensures
        decimal(n).len() >= 1,
    decreases n,
{
    if n >= 10 {
        lemma_decimal_len(n / 10);
    }
}

/// Distinct numbers have distinct decimal renderings.
pub proof fn lemma_decimal_injective(a: nat, b: nat)
    requires
        decimal(a) == decimal(b),
    ensures
        a == b,
    decreases a,
{
    if a < 10 && b < 10 {
        assert(decimal(a) == seq![decimal_digit(a)]);
        assert(decimal(b) == seq![decimal_digit(b)]);
        assert(seq![decimal_digit(a)][0] == decimal_digit(a));
        assert(seq![decimal_digit(b)][0] == decimal_digit(b));
        assert(decimal_digit(a) == decimal_digit(b));
    } else if a < 10 {
        lemma_decimal_len(b / 10);
        assert(decimal(b).len() >= 2);
        assert(decimal(a).len() == 1);
    } else if b < 10 {
        lemma_decimal_len(a / 10);
        assert(decimal(a).len() >= 2);
        assert(decimal(b).len() == 1);
    } else {
        let la = decimal(a).len();
        assert(decimal(a).last() == decimal_digit(a % 10));
        assert(decimal(b).last() == decimal_digit(b % 10));
        assert(a % 10 == b % 10);
        assert(decimal(a).drop_last() =~= decimal(a / 10));
        assert(decimal(b).drop_last() =~= decimal(b / 10));
        lemma_decimal_injective(a / 10, b / 10);
        vstd::arithmetic::div_mod::lemma_fundamental_div_mod(a as int, 10);
        vstd::arithmetic::div_mod::lemma_fundamental_div_mod(b as int, 10);
    }
}

/// In `head + '.' + digits`, the digit tail and the head are determined by
/// the whole: the tail is what follows the last dot.
pub proof fn lemma_dot_digit_split(a1: Seq<char>, d1: Seq<char>, a2: Seq<char>, d2: Seq<char>)
    requires
        a1 + seq!['.'] + d1 == a2 + seq!['.'] + d2,
        all_digits(d1),
        all_digits(d2),
    ensures
        d1 == d2,
        a1 == a2,
{
    let s = a1 + seq!['.'] + d1;
    assert(s.len() == a1.len() + 1 + d1.len());
    assert(s.len() == a2.len() + 1 + d2.len());
    assert(s[a1.len() as int] == '.');
    assert(s[a2.len() as int] == '.');
    if d1.len() < d2.len() {
        let k = a1.len() as int;
        assert(k > a2.len());
        assert(s[k] == d2[k - a2.len() - 1]);
        assert(is_digit_char('.'));
        assert(false);
    } else if d2.len() < d1.len() {
        let k = a2.len() as int;
        assert(k > a1.len());
        assert(s[k] == d1[k - a1.len() - 1]);
        assert(is_digit_char('.'));
        assert(false);
    } else {
        assert(a1.len() == a2.len());
        assert forall|i: int| 0 <= i < d1.len() implies d1[i] == d2[i] by {
            assert(s[a1.len() + 1 + i] == d1[i]);
            assert(s[a2.len() + 1 + i] == d2[i]);
        }
        assert(d1 =~= d2);
        assert forall|i: int| 0 <= i < a1.len() implies a1[i] == a2[i] by {
            assert(s[i] == a1[i]);
            assert(s[i] == a2[i]);
        }
        assert(a1 =~= a2);
    }
}

/// The two labels of one comparison lowering decompose as head, dot, and
/// decimal tail.
proof fn lemma_comparison_label_shape(module: Seq<char>, function: Seq<char>, counter: nat)
    ensures
        true_label(module, function, counter) == ("RETURN_TRUE_"@ + module + "."@ + function)
            + seq!['.'] + decimal(counter),
        false_label(module, function, counter) == ("RETURN_FALSE_"@ + module + "."@ + function)
            + seq!['.'] + decimal(counter),
{
    reveal_strlit(".");
    assert("."@ =~= seq!['.']);
    assert(true_label(module, function, counter) =~= ("RETURN_TRUE_"@ + module + "."@ + function)
        + seq!['.'] + decimal(counter));
    assert(false_label(module, function, counter) =~= ("RETURN_FALSE_"@ + module + "."@
        + function) + seq!['.'] + decimal(counter));
}

/// Label uniqueness for comparison lowerings: within one module, two
/// comparison lowerings with distinct counters generate four pairwise
/// distinct labels, and a branch-taken label never equals a fall-through
/// label, whatever the counters and enclosing functions.
pub proof fn lemma_comparison_labels_distinct(
    module: Seq<char>,
    f1: Seq<char>,
    c1: nat,
    f2: Seq<char>,
    c2: nat,
)
    ensures
        c1 != c2 ==> true_label(module, f1, c1) != true_label(module, f2, c2),
        c1 != c2 ==> false_label(module, f1, c1) != false_label(module, f2, c2),
        true_label(module, f1, c1) != false_label(module, f2, c2),
{
    lemma_comparison_label_shape(module, f1, c1);
    lemma_comparison_label_shape(module, f2, c2);
    lemma_decimal_all_digits(c1);
    lemma_decimal_all_digits(c2);
    if c1 != c2 {
        if true_label(module, f1, c1) == true_label(module, f2, c2) {
            lemma_dot_digit_split(
                "RETURN_TRUE_"@ + module + "."@ + f1,
                decimal(c1),
                "RETURN_TRUE_"@ + module + "."@ + f2,
                decimal(c2),
            );
            lemma_decimal_injective(c1, c2);
            assert(false);
        }
        if false_label(module, f1, c1) == false_label(module, f2, c2) {
            lemma_dot_digit_split(
                "RETURN_FALSE_"@ + module + "."@ + f1,
                decimal(c1),
                "RETURN_FALSE_"@ + module + "."@ + f2,
                decimal(c2),
            );
            lemma_decimal_injective(c1, c2);
            assert(false);
        }
    }
    reveal_strlit("RETURN_TRUE_");
    reveal_strlit("RETURN_FALSE_");
    if true_label(module, f1, c1) == false_label(module, f2, c2) {
        assert(true_label(module, f1, c1)[7] == "RETURN_TRUE_"@[7]);
        assert(false_label(module, f2, c2)[7] == "RETURN_FALSE_"@[7]);
        assert(false);
    }
}

/// Label uniqueness for call sites: two return-site labels with distinct
/// counters are distinct, whatever the callers.
pub proof fn lemma_return_site_labels_distinct(f1: Seq<char>, n1: nat, f2: Seq<char>, n2: nat)
    requires
        n1 != n2,
    ensures
        return_site_label(f1, n1) != return_site_label(f2, n2),
{
    reveal_strlit("$ret.");
    reveal_strlit("$ret");
    assert("$ret."@ =~= "$ret"@ + seq!['.']);
    assert(return_site_label(f1, n1) =~= (f1 + "$ret"@) + seq!['.'] + decimal(n1));
    assert(return_site_label(f2, n2) =~= (f2 + "$ret"@) + seq!['.'] + decimal(n2));
    lemma_decimal_all_digits(n1);
    lemma_decimal_all_digits(n2);
    if return_site_label(f1, n1) == return_site_label(f2, n2) {
        lemma_dot_digit_split(f1 + "$ret"@, decimal(n1), f2 + "$ret"@, decimal(n2));
        lemma_decimal_injective(n1, n2);
        assert(false);
    }
}

/// The one-character string for one decimal digit value.
pub fn digit_str(d: u32) -> (r: &'static str)
    requires
        d < 10,
    ensures
        r@ == seq![decimal_digit(d as nat)],
{
    let r: &'static str = if d == 0 {
        "0"
    } else if d == 1 {
        "1"
    } else if d == 2 {
        "2"
    } else if d == 3 {
        "3"
    } else if d == 4 {
        "4"
    } else if d == 5 {
        "5"
    } else if d == 6 {
        "6"
    } else if d == 7 {
        "7"
    } else if d == 8 {
        "8"
    } else {
        "9"
    };
    proof {
        reveal_strlit("0");
        reveal_strlit("1");
        reveal_strlit("2");
        reveal_strlit("3");
        reveal_strlit("4");
        reveal_strlit("5");
        reveal_strlit("6");
        reveal_strlit("7");
        reveal_strlit("8");
        reveal_strlit("9");
        assert(r@ =~= seq![decimal_digit(d as nat)]);
    }
    r
}

/// Render a counter in decimal.
pub fn decimal_string(n: u32) -> (s: String)
    ensures
        s@ == decimal(n as nat),
    decreases n,
{
    if n < 10 {
        digit_str(n).to_owned()
    } else {
        let mut s = decimal_string(n / 10);
        s.append(digit_str(n % 10));
        proof {
            assert(s@ =~= decimal(n as nat));
        }
        s
    }
}

/// Render a segment index in decimal.
pub fn decimal_string_u16(n: u16) -> (s: String)
    ensures
        s@ == decimal(n as nat),
{
    decimal_string(n as u32)
}

/// Build the branch-taken label of one comparison lowering.
pub fn true_label_string(module: &str, function: &str, counter: u32) -> (s: String)
    ensures
        s@ == true_label(module@, function@, counter as nat),
{
    let mut s = "RETURN_TRUE_".to_owned();
    s.append(module);
    s.append(".");
    s.append(function);
    s.append(".");
    let d = decimal_string(counter);
    s.append(d.as_str());
    proof {
        assert(s@ =~= true_label(module@, function@, counter as nat));
    }
    s
}

/// Build the fall-through label of one comparison lowering.
pub fn false_label_string(module: &str, function: &str, counter: u32) -> (s: String)
    ensures
        s@ == false_label(module@, function@, counter as nat),
{
    let mut s = "RETURN_FALSE_".to_owned();
    s.append(module);
    s.append(".");
    s.append(function);
    s.append(".");
    let d = decimal_string(counter);
    s.append(d.as_str());
    proof {
        assert(s@ =~= false_label(module@, function@, counter as nat));
    }
    s
}

/// Build a branch label scoped to its enclosing function.
pub fn scoped_label_string(function: &str, label: &str) -> (s: String)
    ensures
        s@ == scoped_label(function@, label@),
{
    let mut s = function.to_owned();
    s.append("$");
    s.append(label);
    proof {
        assert(s@ =~= scoped_label(function@, label@));
    }
    s
}

/// Build the return-site label of one call.
pub fn return_site_label_string(caller: &str, counter: u32) -> (s: String)
    ensures
        s@ == return_site_label(caller@, counter as nat),
{
    let mut s = caller.to_owned();
    s.append("$ret.");
    let d = decimal_string(counter);
    s.append(d.as_str());
    proof {
        assert(s@ =~= return_site_label(caller@, counter as nat));
    }
    s
}

/// Build the assembler symbol of one static variable.
pub fn static_symbol_string(module: &str, index: u16) -> (s: String)
    ensures
        s@ == static_symbol(module@, index as nat),
{
    let mut s = module.to_owned();
    s.append(".");
    let d = decimal_string_u16(index);
    s.append(d.as_str());
    proof {
        assert(s@ =~= static_symbol(module@, index as nat));
    }
    s
}

} // verus!
