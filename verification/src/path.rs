//! Path expressions and first-match resolution inside a document.
//!
//! A path expression selects at most one location in a document tree. The
//! accepted grammar is a root anchor `$` followed by any number of steps:
//! `.name` descends into the first object member called `name` (a member
//! name is any non-empty run of characters other than `.`, `[` and `]`),
//! and `[n]` descends into element `n` of an array, written in decimal.
//! An index literal above `u32::MAX` is rejected as malformed, as is any
//! text outside this shape.
//!
//! Resolution follows the members of an object in insertion order, so a
//! repeated member name selects the first occurrence: the document's
//! canonical traversal order decides which match is "first".

#![verifier::loop_isolation(false)]

use vstd::prelude::*;

use crate::value::JsonValue;

verus! {

broadcast use vstd::string::group_string_axioms;

/// One resolved step of a path expression, at the specification level:
/// either an object member name or an array index.
pub enum StepNode {
    Field(Seq<char>),
    Index(int),
}

/// One step of a parsed path expression, as executable data.
pub enum PathStep {
    Field(String),
    Index(usize),
}

impl View for PathStep {
    type V = StepNode;

    open spec fn view(&self) -> StepNode {
        match self {
            PathStep::Field(name) => StepNode::Field(name@),
            PathStep::Index(i) => StepNode::Index(*i as int),
        }
    }
}

impl DeepView for PathStep {
    type V = StepNode;

    open spec fn deep_view(&self) -> StepNode {
        self.view()
    }
}

/// Characters allowed inside an object member name.
pub open spec fn is_field_char(c: char) -> bool {
    c != '.' && c != '[' && c != ']'
}

/// Decimal digits.
pub open spec fn is_digit(c: char) -> bool {
    '0' <= c && c <= '9'
}

/// The numeric value of one decimal digit.
pub open spec fn digit_val(c: char) -> int {
    c as int - '0' as int
}

/// The first position at or after `i` where a member name ends.
pub open spec fn field_end(s: Seq<char>, i: int) -> int
    decreases s.len() - i,
{
    if i >= s.len() {
        i
    } else if is_field_char(s[i]) {
        field_end(s, i + 1)
    } else {
        i
    }
}

/// The first position at or after `i` that does not hold a digit.
pub open spec fn index_end(s: Seq<char>, i: int) -> int
    decreases s.len() - i,
{
    if i >= s.len() {
        i
    } else if is_digit(s[i]) {
        index_end(s, i + 1)
    } else {
        i
    }
}

/// The value of the decimal digit run `s[i..j)`, most significant first.
pub open spec fn digits_val(s: Seq<char>, i: int, j: int) -> int
    decreases j - i,
{
    if i >= j {
        0
    } else {
        digits_val(s, i, j - 1) * 10 + digit_val(s[j - 1])
    }
}

/// A scan never moves backwards, and never past the end of the text.
proof fn lemma_scan_bounds(s: Seq<char>, i: int)
    ensures
        field_end(s, i) >= i,
        index_end(s, i) >= i,
        i <= s.len() ==> field_end(s, i) <= s.len(),
        i <= s.len() ==> index_end(s, i) <= s.len(),
    decreases s.len() - i,
{
    if i < s.len() {
        lemma_scan_bounds(s, i + 1);
    }
}

/// The steps denoted by the text `s[i..]`, or `None` if it is malformed.
pub open spec fn parse_steps(s: Seq<char>, i: int) -> Option<Seq<StepNode>>
    decreases s.len() - i,
        via parse_steps_decreases
{
    if i >= s.len() {
        Some(Seq::empty())
    } else if s[i] == '.' {
        let j = field_end(s, i + 1);
        if j == i + 1 {
            None
        } else {
            match parse_steps(s, j) {
                Some(rest) => Some(seq![StepNode::Field(s.subrange(i + 1, j))] + rest),
                None => None,
            }
        }
    } else if s[i] == '[' {
        let j = index_end(s, i + 1);
        if j == i + 1 {
            None
        } else if j >= s.len() || s[j] != ']' {
            None
        } else if digits_val(s, i + 1, j) > u32::MAX as int {
            None
        } else {
            match parse_steps(s, j + 1) {
                Some(rest) => Some(seq![StepNode::Index(digits_val(s, i + 1, j))] + rest),
                None => None,
            }
        }
    } else {
        None
    }
}

#[via_fn]
proof fn parse_steps_decreases(s: Seq<char>, i: int) {
    lemma_scan_bounds(s, i + 1);
}

/// The steps denoted by a whole path expression: a `$` anchor followed by
/// steps, or `None` if the text is malformed.
pub open spec fn spec_parse_path(s: Seq<char>) -> Option<Seq<StepNode>> {
    if s.len() >= 1 && s[0] == '$' {
        parse_steps(s, 1)
    } else {
        None
    }
}

/// The first member of `fields` named `name`, in insertion order.
pub open spec fn obj_field(fields: Seq<(String, JsonValue)>, name: Seq<char>) -> Option<JsonValue>
    decreases fields.len(),
{
    if fields.len() == 0 {
        None
    } else if fields[0].0@ == name {
        Some(fields[0].1)
    } else {
        obj_field(fields.drop_first(), name)
    }
}

/// The sub-value of `v` selected by `steps`, or `None` when some step does
/// not match the shape of the value it is applied to.
pub open spec fn spec_resolve(v: JsonValue, steps: Seq<StepNode>) -> Option<JsonValue>
    decreases steps.len(),
{
    if steps.len() == 0 {
        Some(v)
    } else {
        match steps[0] {
            StepNode::Field(name) => match v {
                JsonValue::Object(fields) => match obj_field(fields@, name) {
                    Some(child) => spec_resolve(child, steps.drop_first()),
                    None => None,
                },
                _ => None,
            },
            StepNode::Index(idx) => match v {
                JsonValue::Array(items) => if 0 <= idx < items@.len() {
                    spec_resolve(items@[idx], steps.drop_first())
                } else {
                    None
                },
                _ => None,
            },
        }
    }
}

/// A scan that stopped at `j` found exactly the member name `s[start..j)`.
proof fn lemma_field_end_char(s: Seq<char>, start: int, j: int)
    requires
        0 <= start <= j <= s.len(),
        forall|k: int| start <= k < j ==> is_field_char(s[k]),
        j == s.len() || !is_field_char(s[j]),
    ensures
        field_end(s, start) == j,
    decreases j - start,
{
    if start < j {
        lemma_field_end_char(s, start + 1, j);
    }
}

/// A scan that stopped at `j` found exactly the digit run `s[start..j)`.
proof fn lemma_index_end_char(s: Seq<char>, start: int, j: int)
    requires
        0 <= start <= j <= s.len(),
        forall|k: int| start <= k < j ==> is_digit(s[k]),
        j == s.len() || !is_digit(s[j]),
    ensures
        index_end(s, start) == j,
    decreases j - start,
{
    if start < j {
        lemma_index_end_char(s, start + 1, j);
    }
}

/// The value of a digit run is never negative.
proof fn lemma_digits_val_nonneg(s: Seq<char>, i: int, j: int)
    requires
        0 <= i <= j <= s.len(),
        forall|m: int| i <= m < j ==> is_digit(s[m]),
    ensures
        digits_val(s, i, j) >= 0,
    decreases j - i,
{
    if i < j {
        lemma_digits_val_nonneg(s, i, j - 1);
    }
}

/// Extending a digit run to the right never shrinks its value.
proof fn lemma_digits_val_monotonic(s: Seq<char>, i: int, k: int, j: int)
    requires
        0 <= i <= k <= j <= s.len(),
        forall|m: int| i <= m < j ==> is_digit(s[m]),
    ensures
        digits_val(s, i, k) <= digits_val(s, i, j),
    decreases j - k,
{
    if k < j {
        lemma_digits_val_nonneg(s, i, k);
        assert(digits_val(s, i, k + 1) == digits_val(s, i, k) * 10 + digit_val(s[k]));
        lemma_digits_val_monotonic(s, i, k + 1, j);
    }
}

/// When the first match of `name` among `fields` stands at `k`, the
/// first-match lookup selects it; when no member matches, it selects none.
proof fn lemma_obj_field_at(fields: Seq<(String, JsonValue)>, name: Seq<char>, k: int)
    requires
        0 <= k <= fields.len(),
        forall|m: int| 0 <= m < k ==> fields[m].0@ != name,
        k < fields.len() ==> fields[k].0@ == name,
    ensures
        k < fields.len() ==> obj_field(fields, name) == Some(fields[k].1),
        k == fields.len() ==> obj_field(fields, name) is None,
    decreases fields.len(),
{
    if fields.len() > 0 {
        if k == 0 {
        } else {
            lemma_obj_field_at(fields.drop_first(), name, k - 1);
        }
    }
}

/// Tests whether `c` may stand inside an object member name.
fn field_char(c: char) -> (r: bool)
    ensures
        r == is_field_char(c),
{
    c != '.' && c != '[' && c != ']'
}

/// Tests whether `c` is a decimal digit.
fn digit_char(c: char) -> (r: bool)
    ensures
        r == is_digit(c),
{
    '0' <= c && c <= '9'
}

/// Parses a path expression into its steps, or `None` if the text is
/// malformed under the grammar of this module.
pub fn parse_path(path: &str) -> (r: Option<Vec<PathStep>>)
    ensures
        match r {
            Some(steps) => spec_parse_path(path@) == Some(steps.deep_view()),
            None => spec_parse_path(path@) is None,
        },
{
    let n = path.unicode_len();
    if n == 0 {
        return None;
    }
    if path.get_char(0) != '$' {
        return None;
    }
    let mut steps: Vec<PathStep> = Vec::new();
    let mut i: usize = 1;
    while i < n
        invariant
            n == path@.len(),
            1 <= i <= n,
            path@[0] == '$',
            match parse_steps(path@, i as int) {
                Some(rest) => spec_parse_path(path@) == Some(steps.deep_view() + rest),
                None => spec_parse_path(path@) is None,
            },
        decreases n - i,
    {
        let c = path.get_char(i);
        if c == '.' {
            let start = i + 1;
            let mut j: usize = start;
            while j < n && field_char(path.get_char(j))
                invariant
                    start <= j <= n,
                    forall|k: int| start <= k < j ==> is_field_char(path@[k]),
                decreases n - j,
            {
                j = j + 1;
            }
            proof {
                lemma_field_end_char(path@, start as int, j as int);
            }
            if j == start {
                return None;
            }
            let name = path.substring_char(start, j).to_string();
            let ghost old_dv = steps.deep_view();
            let ghost stepn = StepNode::Field(path@.subrange(start as int, j as int));
            steps.push(PathStep::Field(name));
            proof {
                assert(steps.deep_view() =~= old_dv.push(stepn));
                if parse_steps(path@, j as int) is Some {
                    let rest1 = parse_steps(path@, j as int)->Some_0;
                    assert(parse_steps(path@, i as int) == Some(seq![stepn] + rest1));
                    assert(old_dv + (seq![stepn] + rest1) =~= old_dv.push(stepn) + rest1);
                }
            }
            i = j;
        } else if c == '[' {
            let start = i + 1;
            let mut j: usize = start;
            while j < n && digit_char(path.get_char(j))
                invariant
                    start <= j <= n,
                    forall|k: int| start <= k < j ==> is_digit(path@[k]),
                decreases n - j,
            {
                j = j + 1;
            }
            proof {
                lemma_index_end_char(path@, start as int, j as int);
            }
            if j == start {
                return None;
            }
            if j >= n {
                return None;
            }
            if path.get_char(j) != ']' {
                return None;
            }
            let mut val: u64 = 0;
            let mut k: usize = start;
            while k < j
                invariant
                    n == path@.len(),
                    start <= k <= j <= n,
                    forall|m: int| start <= m < j ==> is_digit(path@[m]),
                    val as int == digits_val(path@, start as int, k as int),
                    val <= u32::MAX as u64,
                decreases j - k,
            {
                let ghost kk = k as int;
                let d: u32 = (path.get_char(k) as u32) - 48;
                proof {
                    assert(is_digit(path@[kk]));
                    assert(d == digit_val(path@[kk]));
                }
                let v2: u64 = val * 10 + (d as u64);
                proof {
                    assert(v2 as int == digits_val(path@, start as int, kk + 1));
                }
                if v2 > 4294967295u64 {
                    proof {
                        lemma_digits_val_monotonic(path@, start as int, kk + 1, j as int);
                    }
                    return None;
                }
                val = v2;
                k = k + 1;
            }
            let ghost old_dv = steps.deep_view();
            let ghost stepn = StepNode::Index(digits_val(path@, start as int, j as int));
            steps.push(PathStep::Index(val as usize));
            proof {
                assert(steps.deep_view() =~= old_dv.push(stepn));
                if parse_steps(path@, j + 1) is Some {
                    let rest1 = parse_steps(path@, j + 1)->Some_0;
                    assert(parse_steps(path@, i as int) == Some(seq![stepn] + rest1));
                    assert(old_dv + (seq![stepn] + rest1) =~= old_dv.push(stepn) + rest1);
                }
            }
            i = j + 1;
        } else {
            return None;
        }
    }
    proof {
        assert(steps.deep_view() + Seq::<StepNode>::empty() =~= steps.deep_view());
    }
    Some(steps)
}

/// Finds the first member of an object named `name`, in insertion order.
pub fn obj_get<'a>(fields: &'a Vec<(String, JsonValue)>, name: &str) -> (r: Option<
    &'a JsonValue,
>)
    ensures
        match r {
            Some(v) => obj_field(fields@, name@) == Some(*v),
            None => obj_field(fields@, name@) is None,
        },
{
    let mut k: usize = 0;
    while k < fields.len()
        invariant
            k <= fields@.len(),
            forall|m: int| 0 <= m < k ==> fields@[m].0@ != name@,
        decreases fields@.len() - k,
    {
        if str_eq(fields[k].0.as_str(), name) {
            proof {
                lemma_obj_field_at(fields@, name@, k as int);
            }
            return Some(&fields[k].1);
        }
        k = k + 1;
    }
    proof {
        lemma_obj_field_at(fields@, name@, fields@.len() as int);
    }
    None
}

/// Resolves the first match of `steps` inside `doc`, descending one step at
/// a time; returns the selected sub-value, or `None` when a step does not
/// match the shape of the value it is applied to.
pub fn resolve_first<'a>(doc: &'a JsonValue, steps: &Vec<PathStep>) -> (r: Option<&'a JsonValue>)
    ensures
        match r {
            Some(v) => spec_resolve(*doc, steps.deep_view()) == Some(*v),
            None => spec_resolve(*doc, steps.deep_view()) is None,
        },
{
    let ghost dv = steps.deep_view();
    proof {
        assert(dv.skip(0) =~= dv);
    }
    let mut cur: &JsonValue = doc;
    let mut i: usize = 0;
    while i < steps.len()
        invariant
            dv == steps.deep_view(),
            i <= steps@.len(),
            dv.len() == steps@.len(),
            spec_resolve(*doc, dv) == spec_resolve(*cur, dv.skip(i as int)),
        decreases steps@.len() - i,
    {
        let ghost ii = i as int;
        let ghost rest = dv.skip(ii);
        proof {
            assert(rest[0] == dv[ii]);
            assert(rest.drop_first() =~= dv.skip(ii + 1));
        }
        match &steps[i] {
            PathStep::Field(name) => {
                match cur {
                    JsonValue::Object(fields) => {
                        match obj_get(fields, name.as_str()) {
                            Some(child) => {
                                cur = child;
                            },
                            None => {
                                return None;
                            },
                        }
                    },
                    _ => {
                        return None;
                    },
                }
            },
            PathStep::Index(idx) => {
                match cur {
                    JsonValue::Array(items) => {
                        if *idx < items.len() {
                            cur = &items[*idx];
                        } else {
                            return None;
                        }
                    },
                    _ => {
                        return None;
                    },
                }
            },
        }
        i = i + 1;
    }
    proof {
        assert(dv.skip(i as int) =~= Seq::<StepNode>::empty());
    }
    Some(cur)
}

/// Compares two strings character by character.
pub fn str_eq(a: &str, b: &str) -> (r: bool)
    ensures
        r == (a@ == b@),
{
    let alen = a.unicode_len();
    let blen = b.unicode_len();
    if alen != blen {
        return false;
    }
    let mut i: usize = 0;
    while i < alen
        invariant
            alen == a@.len(),
            blen == b@.len(),
            alen == blen,
            i <= alen,
            forall|j: int| 0 <= j < i ==> a@[j] == b@[j],
        decreases alen - i,
    {
        if a.get_char(i) != b.get_char(i) {
            return false;
        }
        i = i + 1;
    }
    proof {
        assert(a@ =~= b@);
    }
    true
}

} // verus!
