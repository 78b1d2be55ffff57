//! The conditional expression language: one comparison of two strings. An
//! expression is split at the first operator occurrence (preferring the
//! longest operator that matches there), both operands are trimmed of
//! surrounding whitespace, and the comparison itself is plain lexicographic
//! string ordering or substring presence — never numeric.

use vstd::prelude::*;

use crate::text::{
    chars_eq, compare_chars, contains_chars, copy_range, match_at, spec_compare, spec_contains,
    spec_match_at, spec_trim, trim_chars, TextOrder,
};

verus! {

/// The comparison operators a condition can use.
#[allow(missing_docs)]
#[derive(Clone, Copy, PartialEq, Eq, Structural, Debug)]
pub enum CompareOp {
    Eq,
    Ge,
    Le,
    Ne,
    Lt,
    Gt,
    Contains,
    NotContains,
}

/// The characters that spell an operator inside a condition string.
pub open spec fn op_text(op: CompareOp) -> Seq<char> {
    match op {
        CompareOp::Eq => seq!['=', '='],
        CompareOp::Ge => seq!['>', '='],
        CompareOp::Le => seq!['<', '='],
        CompareOp::Ne => seq!['!', '='],
        CompareOp::Lt => seq!['<'],
        CompareOp::Gt => seq!['>'],
        CompareOp::Contains => seq!['c', 'o', 'n', 't', 'a', 'i', 'n', 's'],
        CompareOp::NotContains => seq!['!', 'c', 'o', 'n', 't', 'a', 'i', 'n', 's'],
    }
}

/// The operator whose text starts at position `i` of `s` and still leaves at
/// least one character for the right operand. At one position the longest
/// spelling wins, so `!contains` is never read as `contains`, nor `<=` as `<`.
pub open spec fn spec_op_at(s: Seq<char>, i: int) -> Option<CompareOp> {
    if spec_match_at(s, op_text(CompareOp::NotContains), i) && i + op_text(
        CompareOp::NotContains,
    ).len() < s.len() {
        Some(CompareOp::NotContains)
    } else if spec_match_at(s, op_text(CompareOp::Contains), i) && i + op_text(
        CompareOp::Contains,
    ).len() < s.len() {
        Some(CompareOp::Contains)
    } else if spec_match_at(s, op_text(CompareOp::Eq), i) && i + op_text(CompareOp::Eq).len()
        < s.len() {
        Some(CompareOp::Eq)
    } else if spec_match_at(s, op_text(CompareOp::Ge), i) && i + op_text(CompareOp::Ge).len()
        < s.len() {
        Some(CompareOp::Ge)
    } else if spec_match_at(s, op_text(CompareOp::Le), i) && i + op_text(CompareOp::Le).len()
        < s.len() {
        Some(CompareOp::Le)
    } else if spec_match_at(s, op_text(CompareOp::Ne), i) && i + op_text(CompareOp::Ne).len()
        < s.len() {
        Some(CompareOp::Ne)
    } else if spec_match_at(s, op_text(CompareOp::Lt), i) && i + op_text(CompareOp::Lt).len()
        < s.len() {
        Some(CompareOp::Lt)
    } else if spec_match_at(s, op_text(CompareOp::Gt), i) && i + op_text(CompareOp::Gt).len()
        < s.len() {
        Some(CompareOp::Gt)
    } else {
        None
    }
}

/// The first position at or after `i` where an operator splits `s` with a
/// nonempty left and right side.
pub open spec fn spec_find_op(s: Seq<char>, i: int) -> Option<(int, CompareOp)>
    decreases s.len() - i,
{
    if i < 1 || i >= s.len() {
        None
    } else {
        match spec_op_at(s, i) {
            Some(op) => Some((i, op)),
            None => spec_find_op(s, i + 1),
        }
    }
}

/// A parsed condition: two trimmed operands and the operator between them.
pub struct SpecCondition {
    pub lhs: Seq<char>,
    pub op: CompareOp,
    pub rhs: Seq<char>,
}

/// How a condition string parses: everything before the first operator
/// occurrence is the left operand, everything after it the right one, both
/// trimmed. A string with no operator between two nonempty sides does not
/// parse, which is a fatal configuration error.
pub open spec fn spec_parse_condition(s: Seq<char>) -> Option<SpecCondition> {
    match spec_find_op(s, 1) {
        None => None,
        Some((i, op)) => Some(
            SpecCondition {
                lhs: spec_trim(s.subrange(0, i)),
                op,
                rhs: spec_trim(s.skip(i + op_text(op).len())),
            },
        ),
    }
}

/// What one comparison means. Ordering operators compare lexicographically by
/// Unicode scalar value; `contains` asks whether the right operand occurs in
/// the left one.
pub open spec fn spec_eval_op(op: CompareOp, a: Seq<char>, b: Seq<char>) -> bool {
    match op {
        CompareOp::Eq => a == b,
        CompareOp::Ne => a != b,
        CompareOp::Ge => spec_compare(a, b) != TextOrder::Less,
        CompareOp::Le => spec_compare(a, b) != TextOrder::Greater,
        CompareOp::Lt => spec_compare(a, b) == TextOrder::Less,
        CompareOp::Gt => spec_compare(a, b) == TextOrder::Greater,
        CompareOp::Contains => spec_contains(a, b),
        CompareOp::NotContains => !spec_contains(a, b),
    }
}

/// The truth value of a condition string, or `None` where it does not parse.
pub open spec fn spec_eval_condition(s: Seq<char>) -> Option<bool> {
    match spec_parse_condition(s) {
        None => None,
        Some(c) => Some(spec_eval_op(c.op, c.lhs, c.rhs)),
    }
}

/// A parsed condition, ready to evaluate.
pub struct ConditionExpr {
    pub lhs: Vec<char>,
    pub op: CompareOp,
    pub rhs: Vec<char>,
}

impl View for ConditionExpr {
    type V = SpecCondition;

    open spec fn view(&self) -> SpecCondition {
        SpecCondition { lhs: self.lhs@, op: self.op, rhs: self.rhs@ }
    }
}

/// The spellings of all operators, for the scanner.
struct OpTable {
    nc: Vec<char>,
    ct: Vec<char>,
    eq: Vec<char>,
    ge: Vec<char>,
    le: Vec<char>,
    ne: Vec<char>,
    lt: Vec<char>,
    gt: Vec<char>,
}

impl OpTable {
    spec fn wf(&self) -> bool {
        &&& self.nc@ == op_text(CompareOp::NotContains)
        &&& self.ct@ == op_text(CompareOp::Contains)
        &&& self.eq@ == op_text(CompareOp::Eq)
        &&& self.ge@ == op_text(CompareOp::Ge)
        &&& self.le@ == op_text(CompareOp::Le)
        &&& self.ne@ == op_text(CompareOp::Ne)
        &&& self.lt@ == op_text(CompareOp::Lt)
        &&& self.gt@ == op_text(CompareOp::Gt)
    }

    fn new() -> (t: OpTable)
        ensures
            t.wf(),
    {
        let nc: Vec<char> = vec!['!', 'c', 'o', 'n', 't', 'a', 'i', 'n', 's'];
        let ct: Vec<char> = vec!['c', 'o', 'n', 't', 'a', 'i', 'n', 's'];
        let eq: Vec<char> = vec!['=', '='];
        let ge: Vec<char> = vec!['>', '='];
        let le: Vec<char> = vec!['<', '='];
        let ne: Vec<char> = vec!['!', '='];
        let lt: Vec<char> = vec!['<'];
        let gt: Vec<char> = vec!['>'];
        let t = OpTable { nc, ct, eq, ge, le, ne, lt, gt };
        proof {
            assert(t.nc@ =~= op_text(CompareOp::NotContains));
            assert(t.ct@ =~= op_text(CompareOp::Contains));
            assert(t.eq@ =~= op_text(CompareOp::Eq));
            assert(t.ge@ =~= op_text(CompareOp::Ge));
            assert(t.le@ =~= op_text(CompareOp::Le));
            assert(t.ne@ =~= op_text(CompareOp::Ne));
            assert(t.lt@ =~= op_text(CompareOp::Lt));
            assert(t.gt@ =~= op_text(CompareOp::Gt));
        }
        t
    }

    fn op_at(&self, s: &Vec<char>, i: usize) -> (r: Option<CompareOp>)
        requires
            self.wf(),
            i <= s@.len(),
        ensures
            r == spec_op_at(s@, i as int),
    {
        if match_at(s, &self.nc, i) && self.nc.len() < s.len() - i {
            Some(CompareOp::NotContains)
        } else if match_at(s, &self.ct, i) && self.ct.len() < s.len() - i {
            Some(CompareOp::Contains)
        } else if match_at(s, &self.eq, i) && self.eq.len() < s.len() - i {
            Some(CompareOp::Eq)
        } else if match_at(s, &self.ge, i) && self.ge.len() < s.len() - i {
            Some(CompareOp::Ge)
        } else if match_at(s, &self.le, i) && self.le.len() < s.len() - i {
            Some(CompareOp::Le)
        } else if match_at(s, &self.ne, i) && self.ne.len() < s.len() - i {
            Some(CompareOp::Ne)
        } else if match_at(s, &self.lt, i) && self.lt.len() < s.len() - i {
            Some(CompareOp::Lt)
        } else if match_at(s, &self.gt, i) && self.gt.len() < s.len() - i {
            Some(CompareOp::Gt)
        } else {
            None
        }
    }
}

/// Parses a condition string, or reports that it does not match the
/// comparison pattern.
pub fn parse_condition(s: &Vec<char>) -> (r: Option<ConditionExpr>)
    ensures
        match r {
            Some(c) => spec_parse_condition(s@) == Some(c@),
            None => spec_parse_condition(s@) is None,
        },
{
    let table = OpTable::new();
    let mut i: usize = 1;
    if s.len() < 1 {
        return None;
    }
    while i < s.len()
        invariant
            table.wf(),
            1 <= i <= s@.len(),
            spec_find_op(s@, 1) == spec_find_op(s@, i as int),
        decreases s@.len() - i,
    {
        match table.op_at(s, i) {
            Some(op) => {
                let oplen: usize = match op {
                    CompareOp::NotContains => 9,
                    CompareOp::Contains => 8,
                    CompareOp::Eq => 2,
                    CompareOp::Ge => 2,
                    CompareOp::Le => 2,
                    CompareOp::Ne => 2,
                    CompareOp::Lt => 1,
                    CompareOp::Gt => 1,
                };
                assert(oplen == op_text(op).len());
                let left = copy_range(s, 0, i);
                let right = copy_range(s, i + oplen, s.len());
                let lhs = trim_chars(&left);
                let rhs = trim_chars(&right);
                assert(s@.skip(i + oplen) =~= s@.subrange(i + oplen, s@.len() as int));
                return Some(ConditionExpr { lhs, op, rhs });
            },
            None => {
                i = i + 1;
            },
        }
    }
    None
}

/// Applies one comparison operator to two operands.
pub fn eval_op(op: CompareOp, a: &Vec<char>, b: &Vec<char>) -> (r: bool)
    ensures
        r == spec_eval_op(op, a@, b@),
{
    match op {
        CompareOp::Eq => chars_eq(a, b),
        CompareOp::Ne => !chars_eq(a, b),
        CompareOp::Ge => {
            let c = compare_chars(a, b);
            !matches!(c, TextOrder::Less)
        },
        CompareOp::Le => {
            let c = compare_chars(a, b);
            !matches!(c, TextOrder::Greater)
        },
        CompareOp::Lt => {
            let c = compare_chars(a, b);
            matches!(c, TextOrder::Less)
        },
        CompareOp::Gt => {
            let c = compare_chars(a, b);
            matches!(c, TextOrder::Greater)
        },
        CompareOp::Contains => contains_chars(a, b),
        CompareOp::NotContains => !contains_chars(a, b),
    }
}

/// Evaluates a condition string, or reports that it does not parse.
pub fn eval_condition(s: &Vec<char>) -> (r: Option<bool>)
    ensures
        match r {
            Some(b) => spec_eval_condition(s@) == Some(b),
            None => spec_eval_condition(s@) is None,
        },
{
    match parse_condition(s) {
        None => None,
        Some(c) => Some(eval_op(c.op, &c.lhs, &c.rhs)),
    }
}

} // verus!
