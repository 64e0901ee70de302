//! The expression evaluator: a whitespace-tokenized grammar over checked
//! 64-bit arithmetic.
//!
//! `eval_step` is the full mathematical description of one evaluation: the
//! text that comes back and the "last result" kept for the `ans` token.
//! `SafeCalculator::evaluate` is proved to return exactly that.

use vstd::prelude::*;
use crate::arith::ArithmeticError;
use crate::arith::checked_add_spec;
use crate::arith::checked_sub_spec;
use crate::arith::checked_mul_spec;
use crate::arith::checked_div_spec;
use crate::arith::checked_mod_spec;
use crate::arith::math_add;
use crate::arith::math_sub;
use crate::arith::math_mul;
use crate::arith::math_div;
use crate::arith::math_mod;
use crate::numfmt::dec_int;
use crate::numfmt::fmt_i64;
use crate::numfmt::parse_i64;
use crate::numfmt::parse_i64_spec;
use crate::text::chars_to_string;
use crate::text::split_tokens;
use crate::text::str_to_chars;
use crate::text::tok_eq_str;
use crate::text::token_views;
use crate::text::tokens_of;

verus! {

/// The variant name of a protection, as it is shown to the user.
pub open spec fn err_name(e: ArithmeticError) -> Seq<char> {
    match e {
        ArithmeticError::Overflow => "Overflow"@,
        ArithmeticError::DivisionByZero => "DivisionByZero"@,
    }
}

/// Text and new last result after one checked operation: the decimal value
/// marked safe on success, the protection that triggered otherwise.
pub open spec fn op_outcome(
    last: Option<i64>,
    r: Result<i64, ArithmeticError>,
    err_prefix: Seq<char>,
) -> (Seq<char>, Option<i64>) {
    match r {
        Ok(v) => (dec_int(v as int) + " (safe)"@, Some(v)),
        Err(e) => (err_prefix + err_name(e), last),
    }
}

/// Dispatch of one binary operation on resolved operands.
pub open spec fn eval_op(last: Option<i64>, a: i64, op: Seq<char>, b: i64) -> (
    Seq<char>,
    Option<i64>,
) {
    if op == "+"@ {
        op_outcome(last, checked_add_spec(a, b), "Overflow protected: "@)
    } else if op == "-"@ {
        op_outcome(last, checked_sub_spec(a, b), "Overflow protected: "@)
    } else if op == "*"@ {
        op_outcome(last, checked_mul_spec(a, b), "Overflow protected: "@)
    } else if op == "/"@ {
        op_outcome(last, checked_div_spec(a, b), "Division error protected: "@)
    } else if op == "%"@ {
        op_outcome(last, checked_mod_spec(a, b), "Modulo error protected: "@)
    } else {
        ("Unknown operator: "@ + op, last)
    }
}

/// A three-token expression: resolve the left operand (`ans` stands for the
/// last result, zero when none exists yet), parse the right operand, then
/// apply the operator.
pub open spec fn eval_bin(last: Option<i64>, l: Seq<char>, op: Seq<char>, r: Seq<char>) -> (
    Seq<char>,
    Option<i64>,
) {
    let lv = if l == "ans"@ {
        Some(
            match last {
                Some(v) => v,
                None => 0i64,
            },
        )
    } else {
        parse_i64_spec(l)
    };
    match lv {
        None => ("Invalid left operand"@, last),
        Some(a) => match parse_i64_spec(r) {
            None => ("Invalid right operand"@, last),
            Some(b) => eval_op(last, a, op, b),
        },
    }
}

/// What the overflow demonstration prints: the checked operation catches
/// `i64::MAX + 1`.
pub open spec fn overflow_demo_text() -> Seq<char> {
    "SAFE! Adding 1 to "@ + dec_int(i64::MAX as int) + " would overflow, but Proven caught it"@
}

/// What the division-by-zero demonstration prints.
pub open spec fn divzero_demo_text() -> Seq<char> {
    "SAFE! Division by zero was caught by Proven"@
}

/// The usage hint shown for any unrecognized expression shape.
pub open spec fn usage_text() -> Seq<char> {
    "Usage: <num> <op> <num> (ops: + - * / %)"@
}

/// One full evaluation of an expression: the text that comes back and the
/// new last result, decided by the expression's whitespace tokens.
pub open spec fn eval_step(last: Option<i64>, s: Seq<char>) -> (Seq<char>, Option<i64>) {
    let toks = tokens_of(s);
    if toks.len() == 1 {
        match parse_i64_spec(toks[0]) {
            Some(n) => (dec_int(n as int), Some(n)),
            None => ("Invalid number"@, last),
        }
    } else if toks.len() == 3 {
        eval_bin(last, toks[0], toks[1], toks[2])
    } else if toks.len() == 2 && toks[0] == "max"@ && toks[1] == "i64"@ {
        (dec_int(i64::MAX as int), last)
    } else if toks.len() == 2 && toks[0] == "min"@ && toks[1] == "i64"@ {
        (dec_int(i64::MIN as int), last)
    } else if toks.len() == 2 && toks[0] == "overflow"@ && toks[1] == "demo"@ {
        (overflow_demo_text(), last)
    } else if toks.len() == 2 && toks[0] == "divzero"@ && toks[1] == "demo"@ {
        (divzero_demo_text(), last)
    } else {
        (usage_text(), last)
    }
}

/// A calculator over checked signed 64-bit arithmetic; it remembers the
/// last successful numeric result for chaining through the `ans` token.
#[derive(Debug)]
pub struct SafeCalculator {
    last_result: Option<i64>,
}

impl Default for SafeCalculator {
    fn default() -> (c: Self)
        ensures
            c.last() is None,
    {
        SafeCalculator::new()
    }
}

impl SafeCalculator {
    /// The remembered last successful numeric result.
    pub closed spec fn last(self) -> Option<i64> {
        self.last_result
    }

    /// A calculator with no remembered result yet.
    pub fn new() -> (c: Self)
        ensures
            c.last() is None,
    {
        SafeCalculator { last_result: None }
    }

    /// The decimal value marked as a protected success.
    fn success_string(v: i64) -> (r: String)
        ensures
            r@ == dec_int(v as int) + " (safe)"@,
    {
        let digits = fmt_i64(v);
        let mut s = chars_to_string(&digits);
        s.append(" (safe)");
        s
    }

    /// The variant name of a protection.
    fn err_text(e: ArithmeticError) -> (r: &'static str)
        ensures
            r@ == err_name(e),
    {
        match e {
            ArithmeticError::Overflow => "Overflow",
            ArithmeticError::DivisionByZero => "DivisionByZero",
        }
    }

    /// A protection report: the given prefix followed by the protection's
    /// name.
    fn protected_string(prefix: &'static str, e: ArithmeticError) -> (r: String)
        ensures
            r@ == prefix@ + err_name(e),
    {
        let mut s = prefix.to_owned();
        s.append(Self::err_text(e));
        s
    }

    fn safe_add(&mut self, a: i64, b: i64) -> (r: String)
        ensures
            r@ == op_outcome(old(self).last(), checked_add_spec(a, b), "Overflow protected: "@).0,
            final(self).last() == op_outcome(
                old(self).last(),
                checked_add_spec(a, b),
                "Overflow protected: "@,
            ).1,
    {
        match math_add(a, b) {
            Ok(result) => {
                self.last_result = Some(result);
                Self::success_string(result)
            },
            Err(e) => Self::protected_string("Overflow protected: ", e),
        }
    }

    fn safe_sub(&mut self, a: i64, b: i64) -> (r: String)
        ensures
            r@ == op_outcome(old(self).last(), checked_sub_spec(a, b), "Overflow protected: "@).0,
            final(self).last() == op_outcome(
                old(self).last(),
                checked_sub_spec(a, b),
                "Overflow protected: "@,
            ).1,
    {
        match math_sub(a, b) {
            Ok(result) => {
                self.last_result = Some(result);
                Self::success_string(result)
            },
            Err(e) => Self::protected_string("Overflow protected: ", e),
        }
    }

    fn safe_mul(&mut self, a: i64, b: i64) -> (r: String)
        ensures
            r@ == op_outcome(old(self).last(), checked_mul_spec(a, b), "Overflow protected: "@).0,
            final(self).last() == op_outcome(
                old(self).last(),
                checked_mul_spec(a, b),
                "Overflow protected: "@,
            ).1,
    {
        match math_mul(a, b) {
            Ok(result) => {
                self.last_result = Some(result);
                Self::success_string(result)
            },
            Err(e) => Self::protected_string("Overflow protected: ", e),
        }
    }

    fn safe_div(&mut self, a: i64, b: i64) -> (r: String)
        ensures
            r@ == op_outcome(
                old(self).last(),
                checked_div_spec(a, b),
                "Division error protected: "@,
            ).0,
            final(self).last() == op_outcome(
                old(self).last(),
                checked_div_spec(a, b),
                "Division error protected: "@,
            ).1,
    {
        match math_div(a, b) {
            Ok(result) => {
                self.last_result = Some(result);
                Self::success_string(result)
            },
            Err(e) => Self::protected_string("Division error protected: ", e),
        }
    }

    fn safe_mod(&mut self, a: i64, b: i64) -> (r: String)
        ensures
            r@ == op_outcome(
                old(self).last(),
                checked_mod_spec(a, b),
                "Modulo error protected: "@,
            ).0,
            final(self).last() == op_outcome(
                old(self).last(),
                checked_mod_spec(a, b),
                "Modulo error protected: "@,
            ).1,
    {
        if a == i64::MIN && b == -1 {
            Self::protected_string("Modulo error protected: ", ArithmeticError::Overflow)
        } else {
            match math_mod(a, b) {
                Ok(result) => {
                    self.last_result = Some(result);
                    Self::success_string(result)
                },
                Err(e) => Self::protected_string("Modulo error protected: ", e),
            }
        }
    }

    /// Resolve both operands and apply the operator.
    fn eval_binary(&mut self, l: &Vec<char>, op: &Vec<char>, r: &Vec<char>) -> (out: String)
        ensures
            out@ == eval_bin(old(self).last(), l@, op@, r@).0,
            final(self).last() == eval_bin(old(self).last(), l@, op@, r@).1,
    {
        let left_val: i64;
        if tok_eq_str(l, "ans") {
            left_val = match self.last_result {
                Some(v) => v,
                None => 0,
            };
        } else {
            match parse_i64(l) {
                Some(v) => {
                    left_val = v;
                },
                None => {
                    return "Invalid left operand".to_owned();
                },
            }
        }
        let right_val: i64;
        match parse_i64(r) {
            Some(v) => {
                right_val = v;
            },
            None => {
                return "Invalid right operand".to_owned();
            },
        }
        if tok_eq_str(op, "+") {
            self.safe_add(left_val, right_val)
        } else if tok_eq_str(op, "-") {
            self.safe_sub(left_val, right_val)
        } else if tok_eq_str(op, "*") {
            self.safe_mul(left_val, right_val)
        } else if tok_eq_str(op, "/") {
            self.safe_div(left_val, right_val)
        } else if tok_eq_str(op, "%") {
            self.safe_mod(left_val, right_val)
        } else {
            let mut s = "Unknown operator: ".to_owned();
            let op_str = chars_to_string(op);
            s.append(op_str.as_str());
            s
        }
    }

    /// The overflow demonstration: drive `i64::MAX + 1` through the checked
    /// operation and report that it was caught.
    fn demonstrate_overflow_protection(&mut self) -> (r: String)
        ensures
            r@ == overflow_demo_text(),
            final(self).last() == old(self).last(),
    {
        let max = i64::MAX;
        match math_add(max, 1) {
            Ok(_) => "Unexpected: overflow not caught!".to_owned(),
            Err(_) => {
                let mut s = "SAFE! Adding 1 to ".to_owned();
                let digits = fmt_i64(max);
                let max_str = chars_to_string(&digits);
                s.append(max_str.as_str());
                s.append(" would overflow, but Proven caught it");
                s
            },
        }
    }

    /// The division-by-zero demonstration: drive `42 / 0` through the
    /// checked operation and report that it was caught.
    fn demonstrate_division_by_zero_protection(&mut self) -> (r: String)
        ensures
            r@ == divzero_demo_text(),
            final(self).last() == old(self).last(),
    {
        match math_div(42, 0) {
            Ok(_) => "Unexpected: division by zero not caught!".to_owned(),
            Err(_) => "SAFE! Division by zero was caught by Proven".to_owned(),
        }
    }

    /// Evaluate one expression; every malformed input and every protection
    /// comes back as text, never as a panic or an error.
    pub fn evaluate(&mut self, expr: &str) -> (r: String)
        ensures
            r@ == eval_step(old(self).last(), expr@).0,
            final(self).last() == eval_step(old(self).last(), expr@).1,
    {
        let chars = str_to_chars(expr);
        let toks = split_tokens(&chars);
        let ghost tv = tokens_of(expr@);
        proof {
            assert(token_views(toks@) == tv);
            assert(forall|k: int|
                0 <= k < toks@.len() ==> token_views(toks@)[k] == #[trigger] toks@[k]@);
        }
        if toks.len() == 1 {
            match parse_i64(&toks[0]) {
                Some(n) => {
                    self.last_result = Some(n);
                    let digits = fmt_i64(n);
                    chars_to_string(&digits)
                },
                None => "Invalid number".to_owned(),
            }
        } else if toks.len() == 3 {
            self.eval_binary(&toks[0], &toks[1], &toks[2])
        } else if toks.len() == 2 {
            if tok_eq_str(&toks[0], "max") && tok_eq_str(&toks[1], "i64") {
                let digits = fmt_i64(i64::MAX);
                chars_to_string(&digits)
            } else if tok_eq_str(&toks[0], "min") && tok_eq_str(&toks[1], "i64") {
                let digits = fmt_i64(i64::MIN);
                chars_to_string(&digits)
            } else if tok_eq_str(&toks[0], "overflow") && tok_eq_str(&toks[1], "demo") {
                self.demonstrate_overflow_protection()
            } else if tok_eq_str(&toks[0], "divzero") && tok_eq_str(&toks[1], "demo") {
                self.demonstrate_division_by_zero_protection()
            } else {
                "Usage: <num> <op> <num> (ops: + - * / %)".to_owned()
            }
        } else {
            "Usage: <num> <op> <num> (ops: + - * / %)".to_owned()
        }
    }
}

} // verus!
