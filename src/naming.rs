use vstd::prelude::*;

verus! {

/// The character that stands for the decimal digit `d`.
pub open spec fn digit_char(d: nat) -> char {
    if d == 0 { '0' }
    else if d == 1 { '1' }
    else if d == 2 { '2' }
    else if d == 3 { '3' }
    else if d == 4 { '4' }
    else if d == 5 { '5' }
    else if d == 6 { '6' }
    else if d == 7 { '7' }
    else if d == 8 { '8' }
    else { '9' }
}

/// The decimal notation of `n`: no sign, no leading zeros.
pub open spec fn decimal(n: nat) -> Seq<char>
    decreases n,
{
    if n < 10 {
        seq![digit_char(n)]
    } else {
        decimal(n / 10).push(digit_char(n % 10))
    }
}

/// Relies on the `Display` impl of `u64` (through `to_string`): plain decimal notation.
#[verifier::external_body]
fn decimal_string(n: u64) -> (r: String)
    ensures
        r@ == decimal(n as nat),
{
    n.to_string()
}

/// The path of the temporary artifact for the process `pid` and the per-thread token `token`.
pub open spec fn artifact_path_spec(pid: nat, token: nat) -> Seq<char> {
    "./temp_"@ + decimal(pid) + seq!['_'] + decimal(token)
}

/// Names the temporary artifact of the operation in flight on one thread of one process.
pub fn artifact_path(pid: u32, token: u64) -> (r: String)
    ensures
        r@ == artifact_path_spec(pid as nat, token as nat),
{
    let mut r = String::from_str("./temp_");
    let p = decimal_string(pid as u64);
    r.append(p.as_str());
    r.append("_");
    let t = decimal_string(token);
    r.append(t.as_str());
    proof {
        reveal_strlit("_");
    }
    r
}

proof fn lemma_decimal_no_underscore(n: nat)
    ensures
        decimal(n).len() >= 1,
        forall|i: int| 0 <= i < decimal(n).len() ==> decimal(n)[i] != '_',
    decreases n,
{
    if n >= 10 {
        lemma_decimal_no_underscore(n / 10);
    }
}

proof fn lemma_decimal_injective(a: nat, b: nat)
    requires
        decimal(a) == decimal(b),
    ensures
        a == b,
    decreases a,
{
    lemma_decimal_no_underscore(a);
    lemma_decimal_no_underscore(b);
    let da = decimal(a);
    let db = decimal(b);
    assert(da.last() == db.last());
    if a >= 10 && b >= 10 {
        assert(decimal(a / 10) =~= da.drop_last());
        assert(decimal(b / 10) =~= db.drop_last());
        lemma_decimal_injective(a / 10, b / 10);
    } else if a >= 10 {
        assert(da.len() == decimal(a / 10).len() + 1);
    } else if b >= 10 {
        assert(db.len() == decimal(b / 10).len() + 1);
    }
}

/// Artifact paths of two distinct (process, thread token) identities are distinct.
pub proof fn lemma_distinct_identities_distinct_paths(pid1: nat, token1: nat, pid2: nat, token2: nat)
    requires
        pid1 != pid2 || token1 != token2,
    ensures
        artifact_path_spec(pid1, token1) != artifact_path_spec(pid2, token2),
{
    if artifact_path_spec(pid1, token1) == artifact_path_spec(pid2, token2) {
        let pre = "./temp_"@;
        let d1 = decimal(pid1);
        let d2 = decimal(pid2);
        let t1 = decimal(token1);
        let t2 = decimal(token2);
        lemma_decimal_no_underscore(pid1);
        lemma_decimal_no_underscore(pid2);
        let s1 = d1 + seq!['_'] + t1;
        let s2 = d2 + seq!['_'] + t2;
        assert(artifact_path_spec(pid1, token1) =~= pre + s1);
        assert(artifact_path_spec(pid2, token2) =~= pre + s2);
        assert(s1 =~= (pre + s1).subrange(pre.len() as int, (pre + s1).len() as int));
        assert(s2 =~= (pre + s2).subrange(pre.len() as int, (pre + s2).len() as int));
        assert(s1 == s2);
        if d1.len() < d2.len() {
            assert(s1[d1.len() as int] == '_');
            assert(s2[d1.len() as int] == d2[d1.len() as int]);
        } else if d2.len() < d1.len() {
            assert(s2[d2.len() as int] == '_');
            assert(s1[d2.len() as int] == d1[d2.len() as int]);
        } else {
            assert(d1 =~= s1.subrange(0, d1.len() as int));
            assert(d2 =~= s2.subrange(0, d2.len() as int));
            assert(t1 =~= s1.subrange(d1.len() as int + 1, s1.len() as int));
            assert(t2 =~= s2.subrange(d2.len() as int + 1, s2.len() as int));
            lemma_decimal_injective(pid1, pid2);
            lemma_decimal_injective(token1, token2);
        }
    }
}

} // verus!
