//! The observable summaries: the counts a validated program reports, and the
//! JSON objects written to standard output for each subcommand.

use vstd::prelude::*;
use crate::text::{dec_rep, esc_str, escape_json, render_usize};

verus! {

/// The four counts a validated program reports: how many type declarations,
/// libfunc declarations, statements and functions it holds.
#[derive(Clone, Copy, Debug, PartialEq, Eq, Structural)]
pub struct ProgramCounts {
    pub type_declarations: usize,
    pub libfunc_declarations: usize,
    pub statements: usize,
    pub functions: usize,
}

/// The JSON summary object the validate subcommand emits, as one character
/// sequence: `validated: true` plus the four counts, in this order.
pub open spec fn spec_validate_summary(c: ProgramCounts) -> Seq<char> {
    "{\"validated\":true,\"type_declarations\":"@ + dec_rep(c.type_declarations as nat)
        + ",\"libfunc_declarations\":"@ + dec_rep(c.libfunc_declarations as nat)
        + ",\"statements\":"@ + dec_rep(c.statements as nat) + ",\"functions\":"@ + dec_rep(
        c.functions as nat,
    ) + "}"@
}

/// The JSON summary object the compile subcommand emits: `compiled: true`, the
/// output path (JSON-escaped), the instruction and constant-segment counts,
/// and the gas-check flag as supplied.
pub open spec fn spec_compile_summary(
    out_path: Seq<char>,
    instructions: usize,
    const_segments: usize,
    gas_check: bool,
) -> Seq<char> {
    "{\"compiled\":true,\"out_casm\":\""@ + esc_str(out_path) + "\",\"instructions\":"@ + dec_rep(
        instructions as nat,
    ) + ",\"const_segments\":"@ + dec_rep(const_segments as nat) + ",\"gas_check\":"@ + (
    if gas_check {
        "true"@
    } else {
        "false"@
    }) + "}"@
}

proof fn lemma_summary_tower(c: ProgramCounts)
    ensures
        spec_validate_summary(c) == "{\"validated\":true,\"type_declarations\":"@ + (dec_rep(
            c.type_declarations as nat,
        ) + (",\"libfunc_declarations\":"@ + (dec_rep(c.libfunc_declarations as nat)
            + (",\"statements\":"@ + (dec_rep(c.statements as nat) + (",\"functions\":"@
            + (dec_rep(c.functions as nat) + "}"@))))))),
{
    let p = "{\"validated\":true,\"type_declarations\":"@;
    let q = ",\"libfunc_declarations\":"@;
    let r = ",\"statements\":"@;
    let s = ",\"functions\":"@;
    let t = "}"@;
    let a = dec_rep(c.type_declarations as nat);
    let b = dec_rep(c.libfunc_declarations as nat);
    let d = dec_rep(c.statements as nat);
    let f = dec_rep(c.functions as nat);
    crate::text::lemma_seq_assoc(p + a + q + b + r + d + s, f, t);
    crate::text::lemma_seq_assoc(p + a + q + b + r + d, s, f + t);
    crate::text::lemma_seq_assoc(p + a + q + b + r, d, s + (f + t));
    crate::text::lemma_seq_assoc(p + a + q + b, r, d + (s + (f + t)));
    crate::text::lemma_seq_assoc(p + a + q, b, r + (d + (s + (f + t))));
    crate::text::lemma_seq_assoc(p + a, q, b + (r + (d + (s + (f + t)))));
    crate::text::lemma_seq_assoc(p, a, q + (b + (r + (d + (s + (f + t))))));
}

/// The validate summary determines the counts it reports: two count records
/// with the same summary string are the same record, so the emitted JSON
/// carries the program's counts exactly, losing nothing.
#[verifier::rlimit(100)]
pub proof fn lemma_validate_summary_determines_counts(c1: ProgramCounts, c2: ProgramCounts)
    requires
        spec_validate_summary(c1) == spec_validate_summary(c2),
    ensures
        c1 == c2,
{
    let p = "{\"validated\":true,\"type_declarations\":"@;
    let q = ",\"libfunc_declarations\":"@;
    let r = ",\"statements\":"@;
    let s = ",\"functions\":"@;
    let t = "}"@;
    reveal_strlit(",\"libfunc_declarations\":");
    reveal_strlit(",\"statements\":");
    reveal_strlit(",\"functions\":");
    reveal_strlit("}");
    let ta = dec_rep(c1.type_declarations as nat);
    let la = dec_rep(c1.libfunc_declarations as nat);
    let sa = dec_rep(c1.statements as nat);
    let fa = dec_rep(c1.functions as nat);
    let tb = dec_rep(c2.type_declarations as nat);
    let lb = dec_rep(c2.libfunc_declarations as nat);
    let sb = dec_rep(c2.statements as nat);
    let fb = dec_rep(c2.functions as nat);
    crate::text::lemma_dec_rep_all_digits(c1.type_declarations as nat);
    crate::text::lemma_dec_rep_all_digits(c1.libfunc_declarations as nat);
    crate::text::lemma_dec_rep_all_digits(c1.statements as nat);
    crate::text::lemma_dec_rep_all_digits(c1.functions as nat);
    crate::text::lemma_dec_rep_all_digits(c2.type_declarations as nat);
    crate::text::lemma_dec_rep_all_digits(c2.libfunc_declarations as nat);
    crate::text::lemma_dec_rep_all_digits(c2.statements as nat);
    crate::text::lemma_dec_rep_all_digits(c2.functions as nat);
    lemma_summary_tower(c1);
    lemma_summary_tower(c2);
    let u1 = q + (la + (r + (sa + (s + (fa + t)))));
    let u2 = q + (lb + (r + (sb + (s + (fb + t)))));
    crate::text::lemma_cancel_prefix(p, ta + u1, tb + u2);
    assert(u1[0] == q[0]);
    assert(u2[0] == q[0]);
    crate::text::lemma_digit_run_prefix(ta, u1, tb, u2);
    crate::text::lemma_dec_rep_injective(c1.type_declarations as nat, c2.type_declarations as nat);
    crate::text::lemma_cancel_prefix(
        q,
        la + (r + (sa + (s + (fa + t)))),
        lb + (r + (sb + (s + (fb + t)))),
    );
    let v1 = r + (sa + (s + (fa + t)));
    let v2 = r + (sb + (s + (fb + t)));
    assert(v1[0] == r[0]);
    assert(v2[0] == r[0]);
    crate::text::lemma_digit_run_prefix(la, v1, lb, v2);
    crate::text::lemma_dec_rep_injective(
        c1.libfunc_declarations as nat,
        c2.libfunc_declarations as nat,
    );
    crate::text::lemma_cancel_prefix(r, sa + (s + (fa + t)), sb + (s + (fb + t)));
    let w1 = s + (fa + t);
    let w2 = s + (fb + t);
    assert(w1[0] == s[0]);
    assert(w2[0] == s[0]);
    crate::text::lemma_digit_run_prefix(sa, w1, sb, w2);
    crate::text::lemma_dec_rep_injective(c1.statements as nat, c2.statements as nat);
    crate::text::lemma_cancel_prefix(s, fa + t, fb + t);
    crate::text::lemma_digit_run_prefix(fa, t, fb, t);
    crate::text::lemma_dec_rep_injective(c1.functions as nat, c2.functions as nat);
}

/// Renders the validate summary exactly as `spec_validate_summary` states.
pub fn validate_summary(c: &ProgramCounts) -> (r: String)
    ensures
        r@ == spec_validate_summary(*c),
{
    let mut r = String::new();
    r.append("{\"validated\":true,\"type_declarations\":");
    r.append(render_usize(c.type_declarations).as_str());
    r.append(",\"libfunc_declarations\":");
    r.append(render_usize(c.libfunc_declarations).as_str());
    r.append(",\"statements\":");
    r.append(render_usize(c.statements).as_str());
    r.append(",\"functions\":");
    r.append(render_usize(c.functions).as_str());
    r.append("}");
    r
}

/// Renders the compile summary exactly as `spec_compile_summary` states.
pub fn compile_summary(out_path: &str, instructions: usize, const_segments: usize, gas_check: bool) -> (r:
    String)
    ensures
        r@ == spec_compile_summary(out_path@, instructions, const_segments, gas_check),
{
    let mut r = String::new();
    r.append("{\"compiled\":true,\"out_casm\":\"");
    r.append(escape_json(out_path).as_str());
    r.append("\",\"instructions\":");
    r.append(render_usize(instructions).as_str());
    r.append(",\"const_segments\":");
    r.append(render_usize(const_segments).as_str());
    r.append(",\"gas_check\":");
    if gas_check {
        r.append("true");
    } else {
        r.append("false");
    }
    r.append("}");
    r
}

} // verus!
