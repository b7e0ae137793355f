//! Per-node formulas: a small arithmetic grammar over the parameters `hash`
//! and `thickness`, compiled once and evaluated in fixed point during
//! distance and material queries.
use vstd::prelude::*;

use crate::fixed::{fp_add, fp_add_spec, fp_div, fp_div_spec, fp_mul, fp_mul_spec, fp_sub,
    fp_sub_spec, sat_i64};
use crate::text::{chars_match_str, chars_of, is_ident_char, parse_decimal_prefix, spec_is_digit};

verus! {

#[derive(PartialEq, Eq, Structural, Clone, Copy, Debug)]
pub enum FTExpressionRole {
    Extrusion,
    Modifier,
    Rounding,
    Annular,
    Rotation,
    Border,
    Anisotropic,
    Metallic,
    Roughness,
    Subsurface,
    SpecularTint,
    Sheen,
    SheenTint,
    Clearcoat,
    ClearcoatGloss,
    Emission,
    Transmission,
    IOR,
}

/// The expression role named by a property keyword, if any.
pub open spec fn spec_expression_role_from(s: Seq<char>) -> Option<FTExpressionRole> {
    if s == "extrusion"@ {
        Some(FTExpressionRole::Extrusion)
    } else if s == "modifier"@ {
        Some(FTExpressionRole::Modifier)
    } else if s == "rounding"@ {
        Some(FTExpressionRole::Rounding)
    } else if s == "annular"@ {
        Some(FTExpressionRole::Annular)
    } else if s == "rotation"@ {
        Some(FTExpressionRole::Rotation)
    } else if s == "border"@ {
        Some(FTExpressionRole::Border)
    } else if s == "anisotropic"@ {
        Some(FTExpressionRole::Anisotropic)
    } else if s == "metallic"@ {
        Some(FTExpressionRole::Metallic)
    } else if s == "roughness"@ {
        Some(FTExpressionRole::Roughness)
    } else if s == "subsurface"@ {
        Some(FTExpressionRole::Subsurface)
    } else if s == "specular_tint"@ {
        Some(FTExpressionRole::SpecularTint)
    } else if s == "sheen"@ {
        Some(FTExpressionRole::Sheen)
    } else if s == "sheen_tint"@ {
        Some(FTExpressionRole::SheenTint)
    } else if s == "clearcoat"@ {
        Some(FTExpressionRole::Clearcoat)
    } else if s == "clearcoat_gloss"@ {
        Some(FTExpressionRole::ClearcoatGloss)
    } else if s == "emission"@ {
        Some(FTExpressionRole::Emission)
    } else if s == "transmission"@ {
        Some(FTExpressionRole::Transmission)
    } else if s == "ior"@ {
        Some(FTExpressionRole::IOR)
    } else {
        None
    }
}

impl FTExpressionRole {
    /// Parse a property keyword into its expression role.
    pub fn from_string(s: &str) -> (r: Option<FTExpressionRole>)
        ensures
            r == spec_expression_role_from(s@),
    {
        let v = chars_of(s);
        FTExpressionRole::from_chars(&v)
    }

    /// As `from_string`, over an already-split character vector.
    pub fn from_chars(v: &Vec<char>) -> (r: Option<FTExpressionRole>)
        ensures
            r == spec_expression_role_from(v@),
    {
        if chars_match_str(v, "extrusion") {
            Some(FTExpressionRole::Extrusion)
        } else if chars_match_str(v, "modifier") {
            Some(FTExpressionRole::Modifier)
        } else if chars_match_str(v, "rounding") {
            Some(FTExpressionRole::Rounding)
        } else if chars_match_str(v, "annular") {
            Some(FTExpressionRole::Annular)
        } else if chars_match_str(v, "rotation") {
            Some(FTExpressionRole::Rotation)
        } else if chars_match_str(v, "border") {
            Some(FTExpressionRole::Border)
        } else if chars_match_str(v, "anisotropic") {
            Some(FTExpressionRole::Anisotropic)
        } else if chars_match_str(v, "metallic") {
            Some(FTExpressionRole::Metallic)
        } else if chars_match_str(v, "roughness") {
            Some(FTExpressionRole::Roughness)
        } else if chars_match_str(v, "subsurface") {
            Some(FTExpressionRole::Subsurface)
        } else if chars_match_str(v, "specular_tint") {
            Some(FTExpressionRole::SpecularTint)
        } else if chars_match_str(v, "sheen") {
            Some(FTExpressionRole::Sheen)
        } else if chars_match_str(v, "sheen_tint") {
            Some(FTExpressionRole::SheenTint)
        } else if chars_match_str(v, "clearcoat") {
            Some(FTExpressionRole::Clearcoat)
        } else if chars_match_str(v, "clearcoat_gloss") {
            Some(FTExpressionRole::ClearcoatGloss)
        } else if chars_match_str(v, "emission") {
            Some(FTExpressionRole::Emission)
        } else if chars_match_str(v, "transmission") {
            Some(FTExpressionRole::Transmission)
        } else if chars_match_str(v, "ior") {
            Some(FTExpressionRole::IOR)
        } else {
            None
        }
    }
}

#[derive(PartialEq, Eq, Structural, Clone, Copy, Debug)]
pub enum FTExpressionParam {
    Hash,
    Thickness,
}

/// The parameter named by an identifier in a formula, if any.
pub open spec fn spec_expression_param_from(s: Seq<char>) -> Option<FTExpressionParam> {
    if s == "hash"@ {
        Some(FTExpressionParam::Hash)
    } else if s == "thickness"@ {
        Some(FTExpressionParam::Thickness)
    } else {
        None
    }
}

impl FTExpressionParam {
    /// Parse an identifier into its formula parameter.
    pub fn from_string(s: &str) -> (r: Option<FTExpressionParam>)
        ensures
            r == spec_expression_param_from(s@),
    {
        let v = chars_of(s);
        FTExpressionParam::from_chars(&v)
    }

    /// As `from_string`, over an already-split character vector.
    pub fn from_chars(v: &Vec<char>) -> (r: Option<FTExpressionParam>)
        ensures
            r == spec_expression_param_from(v@),
    {
        if chars_match_str(v, "hash") {
            Some(FTExpressionParam::Hash)
        } else if chars_match_str(v, "thickness") {
            Some(FTExpressionParam::Thickness)
        } else {
            None
        }
    }
}

/// A compiled formula: numbers and parameters combined by the four
/// arithmetic operators and negation.
#[derive(Debug)]
pub enum ExprNode {
    Num(i64),
    Var(FTExpressionParam),
    Add(Box<ExprNode>, Box<ExprNode>),
    Sub(Box<ExprNode>, Box<ExprNode>),
    Mul(Box<ExprNode>, Box<ExprNode>),
    Div(Box<ExprNode>, Box<ExprNode>),
    Neg(Box<ExprNode>),
}

impl Clone for ExprNode {
    fn clone(&self) -> (r: Self)
        ensures
            r == *self,
        decreases *self,
    {
        match self {
            ExprNode::Num(n) => ExprNode::Num(*n),
            ExprNode::Var(p) => ExprNode::Var(*p),
            ExprNode::Add(a, b) => ExprNode::Add(
                Box::new((&**a).clone()),
                Box::new((&**b).clone()),
            ),
            ExprNode::Sub(a, b) => ExprNode::Sub(
                Box::new((&**a).clone()),
                Box::new((&**b).clone()),
            ),
            ExprNode::Mul(a, b) => ExprNode::Mul(
                Box::new((&**a).clone()),
                Box::new((&**b).clone()),
            ),
            ExprNode::Div(a, b) => ExprNode::Div(
                Box::new((&**a).clone()),
                Box::new((&**b).clone()),
            ),
            ExprNode::Neg(a) => ExprNode::Neg(Box::new((&**a).clone())),
        }
    }
}

/// Exact fixed-point semantics of a formula: saturating arithmetic, division
/// by zero yielding the sentinel; `None` only when the formula reads a
/// parameter that was not supplied.
pub open spec fn spec_eval(e: ExprNode, hash: Option<i64>, thickness: Option<i64>) -> Option<i64>
    decreases e,
{
    match e {
        ExprNode::Num(n) => Some(n),
        ExprNode::Var(p) => match p {
            FTExpressionParam::Hash => hash,
            FTExpressionParam::Thickness => thickness,
        },
        ExprNode::Add(a, b) => match (spec_eval(*a, hash, thickness), spec_eval(
            *b,
            hash,
            thickness,
        )) {
            (Some(x), Some(y)) => Some(fp_add_spec(x as int, y as int) as i64),
            _ => None,
        },
        ExprNode::Sub(a, b) => match (spec_eval(*a, hash, thickness), spec_eval(
            *b,
            hash,
            thickness,
        )) {
            (Some(x), Some(y)) => Some(fp_sub_spec(x as int, y as int) as i64),
            _ => None,
        },
        ExprNode::Mul(a, b) => match (spec_eval(*a, hash, thickness), spec_eval(
            *b,
            hash,
            thickness,
        )) {
            (Some(x), Some(y)) => Some(fp_mul_spec(x as int, y as int) as i64),
            _ => None,
        },
        ExprNode::Div(a, b) => match (spec_eval(*a, hash, thickness), spec_eval(
            *b,
            hash,
            thickness,
        )) {
            (Some(x), Some(y)) => Some(fp_div_spec(x as int, y as int) as i64),
            _ => None,
        },
        ExprNode::Neg(a) => match spec_eval(*a, hash, thickness) {
            Some(x) => Some(sat_i64(-(x as int)) as i64),
            None => None,
        },
    }
}

/// Evaluate a compiled formula; exactly `spec_eval`.
pub fn eval_node(e: &ExprNode, hash: Option<i64>, thickness: Option<i64>) -> (r: Option<i64>)
    ensures
        r == spec_eval(*e, hash, thickness),
    decreases *e,
{
    match e {
        ExprNode::Num(n) => Some(*n),
        ExprNode::Var(p) => match p {
            FTExpressionParam::Hash => hash,
            FTExpressionParam::Thickness => thickness,
        },
        ExprNode::Add(a, b) => match (eval_node(&**a, hash, thickness), eval_node(
            &**b,
            hash,
            thickness,
        )) {
            (Some(x), Some(y)) => Some(fp_add(x, y)),
            _ => None,
        },
        ExprNode::Sub(a, b) => match (eval_node(&**a, hash, thickness), eval_node(
            &**b,
            hash,
            thickness,
        )) {
            (Some(x), Some(y)) => Some(fp_sub(x, y)),
            _ => None,
        },
        ExprNode::Mul(a, b) => match (eval_node(&**a, hash, thickness), eval_node(
            &**b,
            hash,
            thickness,
        )) {
            (Some(x), Some(y)) => Some(fp_mul(x, y)),
            _ => None,
        },
        ExprNode::Div(a, b) => match (eval_node(&**a, hash, thickness), eval_node(
            &**b,
            hash,
            thickness,
        )) {
            (Some(x), Some(y)) => Some(fp_div(x, y)),
            _ => None,
        },
        ExprNode::Neg(a) => match eval_node(&**a, hash, thickness) {
            Some(x) => Some(crate::fixed::fp_neg(x)),
            None => None,
        },
    }
}

/// Whether a formula reads the given parameter.
pub open spec fn spec_reads_param(e: ExprNode, p: FTExpressionParam) -> bool
    decreases e,
{
    match e {
        ExprNode::Num(_) => false,
        ExprNode::Var(q) => q == p,
        ExprNode::Add(a, b) => spec_reads_param(*a, p) || spec_reads_param(*b, p),
        ExprNode::Sub(a, b) => spec_reads_param(*a, p) || spec_reads_param(*b, p),
        ExprNode::Mul(a, b) => spec_reads_param(*a, p) || spec_reads_param(*b, p),
        ExprNode::Div(a, b) => spec_reads_param(*a, p) || spec_reads_param(*b, p),
        ExprNode::Neg(a) => spec_reads_param(*a, p),
    }
}

pub fn reads_param(e: &ExprNode, p: FTExpressionParam) -> (r: bool)
    ensures
        r == spec_reads_param(*e, p),
    decreases *e,
{
    match e {
        ExprNode::Num(_) => false,
        ExprNode::Var(q) => *q == p,
        ExprNode::Add(a, b) => reads_param(&**a, p) || reads_param(&**b, p),
        ExprNode::Sub(a, b) => reads_param(&**a, p) || reads_param(&**b, p),
        ExprNode::Mul(a, b) => reads_param(&**a, p) || reads_param(&**b, p),
        ExprNode::Div(a, b) => reads_param(&**a, p) || reads_param(&**b, p),
        ExprNode::Neg(a) => reads_param(&**a, p),
    }
}

/// Whether `c` is blank space inside a formula.
pub open spec fn spec_is_formula_ws(c: char) -> bool {
    c == ' ' || c == '\t'
}

/// The formula text with its blank space removed.
pub open spec fn spec_strip_ws(s: Seq<char>) -> Seq<char>
    decreases s.len(),
{
    if s.len() == 0 {
        Seq::empty()
    } else if spec_is_formula_ws(s[0]) {
        spec_strip_ws(s.drop_first())
    } else {
        seq![s[0]] + spec_strip_ws(s.drop_first())
    }
}

/// Stripping distributes over concatenation.
pub proof fn lemma_strip_ws_concat(a: Seq<char>, b: Seq<char>)
    ensures
        spec_strip_ws(a + b) == spec_strip_ws(a) + spec_strip_ws(b),
    decreases a.len(),
{
    if a.len() == 0 {
        assert(a + b =~= b);
        assert(spec_strip_ws(a) + spec_strip_ws(b) =~= spec_strip_ws(b));
    } else {
        assert((a + b).drop_first() =~= a.drop_first() + b);
        lemma_strip_ws_concat(a.drop_first(), b);
        if !spec_is_formula_ws(a[0]) {
            assert(seq![a[0]] + (spec_strip_ws(a.drop_first()) + spec_strip_ws(b)) =~= (seq![
                a[0],
            ] + spec_strip_ws(a.drop_first())) + spec_strip_ws(b));
        }
    }
}

/// The formula text with its blank space removed; exactly `spec_strip_ws`.
fn strip_ws(v: &Vec<char>) -> (w: Vec<char>)
    ensures
        w@ == spec_strip_ws(v@),
{
    let n: usize = v.len();
    let mut w: Vec<char> = Vec::new();
    let mut i: usize = 0;
    proof {
        assert(v@.subrange(0, 0) =~= Seq::<char>::empty());
        reveal_with_fuel(spec_strip_ws, 2);
    }
    while i < n
        invariant
            i <= n,
            n == v@.len(),
            w@ == spec_strip_ws(v@.subrange(0, i as int)),
        decreases n - i,
    {
        let c: char = v[i];
        proof {
            reveal_with_fuel(spec_strip_ws, 2);
            let prefix = v@.subrange(0, i as int);
            let one = seq![v@[i as int]];
            assert(v@.subrange(0, i as int + 1) =~= prefix + one);
            lemma_strip_ws_concat(prefix, one);
            assert(one.drop_first() =~= Seq::<char>::empty());
            if !spec_is_formula_ws(v@[i as int]) {
                assert(spec_strip_ws(one) =~= seq![v@[i as int]]);
                assert(prefix + one =~= prefix.push(v@[i as int]));
                assert(spec_strip_ws(prefix) + seq![v@[i as int]] =~= spec_strip_ws(
                    prefix,
                ).push(v@[i as int]));
            } else {
                assert(spec_strip_ws(one) =~= Seq::<char>::empty());
                assert(spec_strip_ws(prefix) + Seq::<char>::empty() =~= spec_strip_ws(prefix));
            }
        }
        if !(c == ' ' || c == '\t') {
            w.push(c);
        }
        i += 1;
    }
    proof {
        assert(v@.subrange(0, n as int) =~= v@);
    }
    w
}

/// Parse a sum of terms from `pos`: the compiled node and the position one
/// past the consumed text.
pub open spec fn spec_parse_expr(s: Seq<char>, pos: int) -> Option<(ExprNode, int)>
    decreases s.len() - pos, 2int,
{
    match spec_parse_term(s, pos) {
        Some((lhs, p1)) => if pos < p1 <= s.len() {
            spec_parse_expr_rest(s, p1, lhs)
        } else {
            None
        },
        None => None,
    }
}

/// Fold further `+`/`-` terms onto the left operand.
pub open spec fn spec_parse_expr_rest(s: Seq<char>, pos: int, lhs: ExprNode) -> Option<
    (ExprNode, int),
>
    decreases s.len() - pos, 2int,
{
    if 0 <= pos < s.len() && (s[pos] == '+' || s[pos] == '-') {
        match spec_parse_term(s, pos + 1) {
            Some((rhs, p2)) => if pos < p2 <= s.len() {
                let node = if s[pos] == '+' {
                    ExprNode::Add(Box::new(lhs), Box::new(rhs))
                } else {
                    ExprNode::Sub(Box::new(lhs), Box::new(rhs))
                };
                spec_parse_expr_rest(s, p2, node)
            } else {
                None
            },
            None => None,
        }
    } else {
        Some((lhs, pos))
    }
}

/// Parse a product of factors from `pos`.
pub open spec fn spec_parse_term(s: Seq<char>, pos: int) -> Option<(ExprNode, int)>
    decreases s.len() - pos, 1int,
{
    match spec_parse_factor(s, pos) {
        Some((lhs, p1)) => if pos < p1 <= s.len() {
            spec_parse_term_rest(s, p1, lhs)
        } else {
            None
        },
        None => None,
    }
}

/// Fold further `*`/`/` factors onto the left operand.
pub open spec fn spec_parse_term_rest(s: Seq<char>, pos: int, lhs: ExprNode) -> Option<
    (ExprNode, int),
>
    decreases s.len() - pos, 1int,
{
    if 0 <= pos < s.len() && (s[pos] == '*' || s[pos] == '/') {
        match spec_parse_factor(s, pos + 1) {
            Some((rhs, p2)) => if pos < p2 <= s.len() {
                let node = if s[pos] == '*' {
                    ExprNode::Mul(Box::new(lhs), Box::new(rhs))
                } else {
                    ExprNode::Div(Box::new(lhs), Box::new(rhs))
                };
                spec_parse_term_rest(s, p2, node)
            } else {
                None
            },
            None => None,
        }
    } else {
        Some((lhs, pos))
    }
}

/// Parse a negation, a parenthesised sum, a decimal number or a parameter
/// name.
pub open spec fn spec_parse_factor(s: Seq<char>, pos: int) -> Option<(ExprNode, int)>
    decreases s.len() - pos, 0int,
{
    if !(0 <= pos < s.len()) {
        None
    } else if s[pos] == '-' {
        match spec_parse_factor(s, pos + 1) {
            Some((x, p)) => Some((ExprNode::Neg(Box::new(x)), p)),
            None => None,
        }
    } else if s[pos] == '(' {
        match spec_parse_expr(s, pos + 1) {
            Some((inner, p1)) => if p1 < s.len() && s[p1] == ')' {
                Some((inner, p1 + 1))
            } else {
                None
            },
            None => None,
        }
    } else if crate::text::spec_is_digit(s[pos]) {
        let end = crate::text::spec_decimal_end(s, pos);
        Some((ExprNode::Num(crate::text::spec_decimal_value(s.subrange(pos, end)) as i64), end))
    } else if crate::text::spec_is_ident_char(s[pos]) {
        let end = crate::text::spec_scan(s, pos, |c: char| crate::text::spec_is_ident_char(c));
        match spec_expression_param_from(s.subrange(pos, end)) {
            Some(p) => Some((ExprNode::Var(p), end)),
            None => None,
        }
    } else {
        None
    }
}

/// What `parse_expression` compiles: the whole blank-stripped text as one
/// sum of terms, or nothing when any of it fails to parse or is left over.
pub open spec fn spec_parse_expression(s: Seq<char>) -> Option<ExprNode> {
    let t = spec_strip_ws(s);
    match spec_parse_expr(t, 0) {
        Some((e, p)) => if p == t.len() {
            Some(e)
        } else {
            None
        },
        None => None,
    }
}

/// Exactly `spec_parse_expr`.
fn parse_expr(v: &Vec<char>, pos: usize) -> (r: Option<(ExprNode, usize)>)
    requires
        pos <= v@.len(),
    ensures
        match r {
            Some(p) => pos < p.1 <= v@.len() && spec_parse_expr(v@, pos as int) == Some(
                (p.0, p.1 as int),
            ),
            None => spec_parse_expr(v@, pos as int) is None,
        },
    decreases v@.len() - pos, 2int,
{
    match parse_term(v, pos) {
        Some((lhs, p1)) => parse_expr_rest(v, p1, lhs),
        None => None,
    }
}

/// Exactly `spec_parse_expr_rest`.
fn parse_expr_rest(v: &Vec<char>, pos: usize, lhs: ExprNode) -> (r: Option<(ExprNode, usize)>)
    requires
        0 < pos <= v@.len(),
    ensures
        match r {
            Some(p) => pos <= p.1 <= v@.len() && spec_parse_expr_rest(v@, pos as int, lhs) == Some(
                (p.0, p.1 as int),
            ),
            None => spec_parse_expr_rest(v@, pos as int, lhs) is None,
        },
    decreases v@.len() - pos, 2int,
{
    if pos < v.len() && (v[pos] == '+' || v[pos] == '-') {
        let op: char = v[pos];
        match parse_term(v, pos + 1) {
            Some((rhs, p2)) => {
                let node: ExprNode = if op == '+' {
                    ExprNode::Add(Box::new(lhs), Box::new(rhs))
                } else {
                    ExprNode::Sub(Box::new(lhs), Box::new(rhs))
                };
                parse_expr_rest(v, p2, node)
            },
            None => None,
        }
    } else {
        Some((lhs, pos))
    }
}

/// Exactly `spec_parse_term`.
fn parse_term(v: &Vec<char>, pos: usize) -> (r: Option<(ExprNode, usize)>)
    requires
        pos <= v@.len(),
    ensures
        match r {
            Some(p) => pos < p.1 <= v@.len() && spec_parse_term(v@, pos as int) == Some(
                (p.0, p.1 as int),
            ),
            None => spec_parse_term(v@, pos as int) is None,
        },
    decreases v@.len() - pos, 1int,
{
    match parse_factor(v, pos) {
        Some((lhs, p1)) => parse_term_rest(v, p1, lhs),
        None => None,
    }
}

/// Exactly `spec_parse_term_rest`.
fn parse_term_rest(v: &Vec<char>, pos: usize, lhs: ExprNode) -> (r: Option<(ExprNode, usize)>)
    requires
        0 < pos <= v@.len(),
    ensures
        match r {
            Some(p) => pos <= p.1 <= v@.len() && spec_parse_term_rest(v@, pos as int, lhs) == Some(
                (p.0, p.1 as int),
            ),
            None => spec_parse_term_rest(v@, pos as int, lhs) is None,
        },
    decreases v@.len() - pos, 1int,
{
    if pos < v.len() && (v[pos] == '*' || v[pos] == '/') {
        let op: char = v[pos];
        match parse_factor(v, pos + 1) {
            Some((rhs, p2)) => {
                let node: ExprNode = if op == '*' {
                    ExprNode::Mul(Box::new(lhs), Box::new(rhs))
                } else {
                    ExprNode::Div(Box::new(lhs), Box::new(rhs))
                };
                parse_term_rest(v, p2, node)
            },
            None => None,
        }
    } else {
        Some((lhs, pos))
    }
}

/// Exactly `spec_parse_factor`.
fn parse_factor(v: &Vec<char>, pos: usize) -> (r: Option<(ExprNode, usize)>)
    requires
        pos <= v@.len(),
    ensures
        match r {
            Some(p) => pos < p.1 <= v@.len() && spec_parse_factor(v@, pos as int) == Some(
                (p.0, p.1 as int),
            ),
            None => spec_parse_factor(v@, pos as int) is None,
        },
    decreases v@.len() - pos, 0int,
{
    if pos >= v.len() {
        return None;
    }
    let c: char = v[pos];
    if c == '-' {
        match parse_factor(v, pos + 1) {
            Some((x, p)) => Some((ExprNode::Neg(Box::new(x)), p)),
            None => None,
        }
    } else if c == '(' {
        match parse_expr(v, pos + 1) {
            Some((inner, p1)) => {
                if p1 < v.len() && v[p1] == ')' {
                    Some((inner, p1 + 1))
                } else {
                    None
                }
            },
            None => None,
        }
    } else if crate::text::is_digit(c) {
        match crate::text::parse_decimal_prefix(v, pos) {
            Some((val, end)) => Some((ExprNode::Num(val), end)),
            None => None,
        }
    } else if is_ident_char(c) {
        let end: usize = ident_end(v, pos);
        let mut ident: Vec<char> = Vec::new();
        let mut k: usize = pos;
        while k < end
            invariant
                pos <= k <= end <= v@.len(),
                ident@ == v@.subrange(pos as int, k as int),
            decreases end - k,
        {
            ident.push(v[k]);
            k += 1;
            proof {
                assert(ident@ =~= v@.subrange(pos as int, k as int));
            }
        }
        proof {
            assert(ident@ =~= v@.subrange(pos as int, end as int));
        }
        match FTExpressionParam::from_chars(&ident) {
            Some(p) => Some((ExprNode::Var(p), end)),
            None => None,
        }
    } else {
        None
    }
}

/// One past the identifier run starting at `pos`.
fn ident_end(v: &Vec<char>, pos: usize) -> (end: usize)
    requires
        pos < v@.len(),
        crate::text::spec_is_ident_char(v@[pos as int]),
    ensures
        pos < end <= v@.len(),
        end == crate::text::spec_scan(v@, pos as int, |c: char| crate::text::spec_is_ident_char(c)),
{
    let n: usize = v.len();
    let mut i: usize = pos;
    while i < n && is_ident_char(v[i])
        invariant
            pos <= i <= n,
            n == v@.len(),
            forall|j: int| pos <= j < i ==> crate::text::spec_is_ident_char(v@[j]),
        decreases n - i,
    {
        i += 1;
    }
    proof {
        crate::text::lemma_scan_characterize(
            v@,
            pos as int,
            i as int,
            |c: char| crate::text::spec_is_ident_char(c),
        );
    }
    i
}

/// Parse a whole formula; the entire blank-stripped text must be consumed.
/// Exactly `spec_parse_expression`.
pub fn parse_expression(s: &str) -> (r: Option<ExprNode>)
    ensures
        r == spec_parse_expression(s@),
{
    let v = chars_of(s);
    let w = strip_ws(&v);
    match parse_expr(&w, 0) {
        Some((e, p)) => {
            if p == w.len() {
                Some(e)
            } else {
                None
            }
        },
        None => None,
    }
}

/// The parameters a compiled formula reads, hash first.
pub open spec fn spec_params_of(e: ExprNode) -> Seq<FTExpressionParam> {
    let h: Seq<FTExpressionParam> = if spec_reads_param(e, FTExpressionParam::Hash) {
        seq![FTExpressionParam::Hash]
    } else {
        Seq::empty()
    };
    let t: Seq<FTExpressionParam> = if spec_reads_param(e, FTExpressionParam::Thickness) {
        seq![FTExpressionParam::Thickness]
    } else {
        Seq::empty()
    };
    h + t
}

/// Role-keyed compiled formulas, in insertion order; evaluation uses the
/// first entry with the requested role.
#[derive(Clone, Debug)]
pub struct FTExpressions {
    pub expressions: Vec<(FTExpressionRole, ExprNode, Vec<FTExpressionParam>)>,
}

/// First compiled formula with the given role.
pub open spec fn spec_find_expression(
    es: Seq<(FTExpressionRole, ExprNode, Seq<FTExpressionParam>)>,
    role: FTExpressionRole,
) -> Option<ExprNode>
    decreases es.len(),
{
    if es.len() == 0 {
        None
    } else if es[0].0 == role {
        Some(es[0].1)
    } else {
        spec_find_expression(es.drop_first(), role)
    }
}

/// First value bound to the given parameter.
pub open spec fn spec_find_param(
    ps: Seq<(FTExpressionParam, i64)>,
    p: FTExpressionParam,
) -> Option<i64>
    decreases ps.len(),
{
    if ps.len() == 0 {
        None
    } else if ps[0].0 == p {
        Some(ps[0].1)
    } else {
        spec_find_param(ps.drop_first(), p)
    }
}

/// What `eval` returns: the first formula with the role, evaluated on the
/// supplied parameters, with `default` covering a missing formula or a
/// missing parameter.
pub open spec fn spec_expressions_eval(
    es: Seq<(FTExpressionRole, ExprNode, Seq<FTExpressionParam>)>,
    role: FTExpressionRole,
    ps: Seq<(FTExpressionParam, i64)>,
    default: i64,
) -> i64 {
    match spec_find_expression(es, role) {
        None => default,
        Some(e) => match spec_eval(
            e,
            spec_find_param(ps, FTExpressionParam::Hash),
            spec_find_param(ps, FTExpressionParam::Thickness),
        ) {
            Some(x) => x,
            None => default,
        },
    }
}

impl Default for FTExpressions {
    fn default() -> (r: Self)
        ensures
            r.view_entries().len() == 0,
    {
        FTExpressions::new()
    }
}

impl FTExpressions {
    /// The mathematical contents: the entry sequence with vector views.
    pub open spec fn view_entries(&self) -> Seq<
        (FTExpressionRole, ExprNode, Seq<FTExpressionParam>),
    > {
        self.expressions@.map_values(
            |p: (FTExpressionRole, ExprNode, Vec<FTExpressionParam>)| (p.0, p.1, p.2@),
        )
    }

    pub fn new() -> (r: Self)
        ensures
            r.view_entries() =~= Seq::<
                (FTExpressionRole, ExprNode, Seq<FTExpressionParam>),
            >::empty(),
    {
        FTExpressions { expressions: Vec::new() }
    }

    /// Compile a formula and register it for `role`: a parsable formula
    /// appends exactly one entry holding its compiled form and the
    /// parameters it reads; an unparsable one leaves the registered
    /// formulas exactly as they were.
    pub fn add(&mut self, role: FTExpressionRole, expression: &str)
        ensures
            match spec_parse_expression(expression@) {
                Some(ast) => final(self).view_entries() == old(self).view_entries().push(
                    (role, ast, spec_params_of(ast)),
                ),
                None => final(self).view_entries() == old(self).view_entries(),
            },
    {
        match parse_expression(expression) {
            Some(ast) => {
                let mut params: Vec<FTExpressionParam> = Vec::new();
                if reads_param(&ast, FTExpressionParam::Hash) {
                    params.push(FTExpressionParam::Hash);
                }
                if reads_param(&ast, FTExpressionParam::Thickness) {
                    params.push(FTExpressionParam::Thickness);
                }
                proof {
                    assert(params@ =~= spec_params_of(ast));
                }
                self.expressions.push((role, ast, params));
                proof {
                    assert(self.view_entries() =~= old(self).view_entries().push(
                        (role, ast, spec_params_of(ast)),
                    ));
                }
            },
            None => {
                proof {
                    assert(self.view_entries() =~= old(self).view_entries());
                }
            },
        }
    }

    /// Evaluate the first formula registered for `role` on the supplied
    /// parameters, or return `default`.
    pub fn eval(
        &self,
        role: FTExpressionRole,
        parameters: Vec<(FTExpressionParam, i64)>,
        default: i64,
    ) -> (r: i64)
        ensures
            r == spec_expressions_eval(self.view_entries(), role, parameters@, default),
    {
        let hash: Option<i64> = Self::find_param(&parameters, FTExpressionParam::Hash);
        let thickness: Option<i64> = Self::find_param(&parameters, FTExpressionParam::Thickness);
        let n: usize = self.expressions.len();
        let mut i: usize = 0;
        proof {
            assert(self.view_entries().skip(0) =~= self.view_entries());
        }
        while i < n
            invariant
                i <= n,
                n == self.expressions@.len(),
                hash == spec_find_param(parameters@, FTExpressionParam::Hash),
                thickness == spec_find_param(parameters@, FTExpressionParam::Thickness),
                spec_find_expression(self.view_entries(), role) == spec_find_expression(
                    self.view_entries().skip(i as int),
                    role,
                ),
            decreases n - i,
        {
            proof {
                assert(self.view_entries().skip(i as int)[0] == self.view_entries()[i as int]);
            }
            if self.expressions[i].0 == role {
                let e: &ExprNode = &self.expressions[i].1;
                proof {
                    assert(*e == self.view_entries()[i as int].1);
                }
                return match eval_node(e, hash, thickness) {
                    Some(x) => x,
                    None => default,
                };
            }
            proof {
                assert(self.view_entries().skip(i as int).drop_first() =~= self.view_entries().skip(
                    i as int + 1,
                ));
            }
            i += 1;
        }
        proof {
            assert(self.view_entries().skip(n as int).len() == 0);
        }
        default
    }

    /// First binding of a parameter in an argument list.
    fn find_param(ps: &Vec<(FTExpressionParam, i64)>, p: FTExpressionParam) -> (r: Option<i64>)
        ensures
            r == spec_find_param(ps@, p),
    {
        let n: usize = ps.len();
        let mut i: usize = 0;
        proof {
            assert(ps@.skip(0) =~= ps@);
        }
        while i < n
            invariant
                i <= n,
                n == ps@.len(),
                spec_find_param(ps@, p) == spec_find_param(ps@.skip(i as int), p),
            decreases n - i,
        {
            proof {
                assert(ps@.skip(i as int)[0] == ps@[i as int]);
            }
            if ps[i].0 == p {
                return Some(ps[i].1);
            }
            proof {
                assert(ps@.skip(i as int).drop_first() =~= ps@.skip(i as int + 1));
            }
            i += 1;
        }
        proof {
            assert(ps@.skip(n as int).len() == 0);
        }
        None
    }
}

} // verus!
