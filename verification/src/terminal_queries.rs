//! Terminal capability queries emitted by programs running in a PTY.
//!
//! Fish shell and other programs query terminal capabilities via escape
//! sequences such as `ESC[c`, `ESC[>c`, `ESC[5n` and `ESC[6n`; the session
//! manager answers them as a modern xterm would.
use vstd::prelude::*;

verus! {

/// `ESC [ ? 6 2 ; 1 ; 2 ; 6 ; 9 ; 1 5 ; 2 2 c`: primary device attributes (VT220).
pub open spec fn da1_response() -> Seq<u8> {
    seq![0x1bu8, 0x5bu8, 0x3fu8, 0x36u8, 0x32u8, 0x3bu8, 0x31u8, 0x3bu8, 0x32u8, 0x3bu8, 0x36u8, 0x3bu8, 0x39u8, 0x3bu8, 0x31u8, 0x35u8, 0x3bu8, 0x32u8, 0x32u8, 0x63u8]
}

/// `ESC [ > 4 1 ; 2 7 9 ; 0 c`: secondary device attributes (xterm 279).
pub open spec fn da2_response() -> Seq<u8> {
    seq![0x1bu8, 0x5bu8, 0x3eu8, 0x34u8, 0x31u8, 0x3bu8, 0x32u8, 0x37u8, 0x39u8, 0x3bu8, 0x30u8, 0x63u8]
}

/// `ESC [ 0 n`: device status OK.
pub open spec fn dsr_response() -> Seq<u8> {
    seq![0x1bu8, 0x5bu8, 0x30u8, 0x6eu8]
}

/// `ESC [ 1 ; 1 R`: a fixed cursor position report.
pub open spec fn cpr_response() -> Seq<u8> {
    seq![0x1bu8, 0x5bu8, 0x31u8, 0x3bu8, 0x31u8, 0x52u8]
}

/// A CSI parameter byte (`0x30..=0x3F`: digits, `;`, `>`, `?` ...).
pub open spec fn is_csi_param_byte(b: u8) -> bool {
    0x30 <= b <= 0x3f
}

/// End of the run of parameter bytes that starts at `i`.
pub open spec fn csi_params_end(s: Seq<u8>, i: int) -> int
    decreases s.len() - i,
{
    if i < 0 || i >= s.len() || !is_csi_param_byte(s[i]) {
        i
    } else {
        csi_params_end(s, i + 1)
    }
}

/// The answer to a query with parameters `params` and final byte `final_byte`.
pub open spec fn query_response(params: Seq<u8>, final_byte: u8) -> Option<Seq<u8>> {
    if final_byte == 0x63u8 && (params.len() == 0 || params == seq![0x30u8]) {
        Some(da1_response())
    } else if final_byte == 0x63u8 && params.len() > 0 && params[0] == 0x3eu8 {
        Some(da2_response())
    } else if final_byte == 0x6eu8 && params == seq![0x35u8] {
        Some(dsr_response())
    } else if final_byte == 0x6eu8 && params == seq![0x36u8] {
        Some(cpr_response())
    } else {
        None
    }
}

/// The responses owed to the queries in `s` from position `i` on, in order.
pub open spec fn query_responses_from(s: Seq<u8>, i: int) -> Seq<Seq<u8>>
    decreases s.len() - i,
{
    if i < 0 || i >= s.len() {
        Seq::empty()
    } else if s[i] == 0x1bu8 && i + 1 < s.len() && s[i + 1] == 0x5bu8 {
        let p = csi_params_end(s, i + 2);
        if i + 2 <= p < s.len() {
            match query_response(s.subrange(i + 2, p), s[p]) {
                Some(r) => seq![r] + query_responses_from(s, p + 1),
                None => query_responses_from(s, p + 1),
            }
        } else {
            Seq::empty()
        }
    } else {
        query_responses_from(s, i + 1)
    }
}

proof fn lemma_csi_params_end(s: Seq<u8>, i: int)
    requires
        0 <= i <= s.len(),
    ensures
        i <= csi_params_end(s, i) <= s.len(),
        forall|j: int| i <= j < csi_params_end(s, i) ==> is_csi_param_byte(#[trigger] s[j]),
        csi_params_end(s, i) < s.len() ==> !is_csi_param_byte(s[csi_params_end(s, i)]),
    decreases s.len() - i,
{
    if i < s.len() && is_csi_param_byte(s[i]) {
        lemma_csi_params_end(s, i + 1);
    }
}

fn bytes_of(s: &[u8]) -> (v: Vec<u8>)
    ensures
        v@ == s@,
{
    let mut v: Vec<u8> = Vec::new();
    let mut k: usize = 0;
    while k < s.len()
        invariant
            k <= s@.len(),
            v@ == s@.subrange(0, k as int),
        decreases s.len() - k,
    {
        v.push(s[k]);
        k += 1;
    }
    v
}

fn response_for(data: &[u8], param_start: usize, param_end: usize, final_byte: u8) -> (r: Option<Vec<u8>>)
    requires
        param_start <= param_end <= data@.len(),
    ensures
        match r {
            Some(v) => query_response(data@.subrange(param_start as int, param_end as int), final_byte) == Some(v@),
            None => query_response(data@.subrange(param_start as int, param_end as int), final_byte) is None,
        },
{
    let ghost params = data@.subrange(param_start as int, param_end as int);
    let n = param_end - param_start;
    assert(params.len() == n);
    assert(forall|k: int| 0 <= k < n ==> params[k] == data@[param_start + k]);
    assert(seq![0x30u8][0] == 0x30u8 && seq![0x30u8].len() == 1);
    assert(seq![0x35u8][0] == 0x35u8 && seq![0x35u8].len() == 1);
    assert(seq![0x36u8][0] == 0x36u8 && seq![0x36u8].len() == 1);
    if final_byte == 0x63 && (n == 0 || (n == 1 && data[param_start] == 0x30)) {
        assert(n == 1 ==> params =~= seq![0x30u8]);
        let resp: [u8; 20] = [0x1b, 0x5b, 0x3f, 0x36, 0x32, 0x3b, 0x31, 0x3b, 0x32, 0x3b, 0x36, 0x3b, 0x39, 0x3b, 0x31, 0x35, 0x3b, 0x32, 0x32, 0x63];
        let v = bytes_of(&resp);
        assert(v@ =~= da1_response());
        return Some(v);
    }
    assert(n == 1 && params == seq![0x30u8] ==> data[param_start as int] == 0x30u8);
    if final_byte == 0x63 && n > 0 && data[param_start] == 0x3e {
        let resp: [u8; 12] = [0x1b, 0x5b, 0x3e, 0x34, 0x31, 0x3b, 0x32, 0x37, 0x39, 0x3b, 0x30, 0x63];
        let v = bytes_of(&resp);
        assert(v@ =~= da2_response());
        return Some(v);
    }
    if final_byte == 0x6e && n == 1 && data[param_start] == 0x35 {
        assert(params =~= seq![0x35u8]);
        let resp: [u8; 4] = [0x1b, 0x5b, 0x30, 0x6e];
        let v = bytes_of(&resp);
        assert(v@ =~= dsr_response());
        return Some(v);
    }
    if final_byte == 0x6e && n == 1 && data[param_start] == 0x36 {
        assert(params =~= seq![0x36u8]);
        let resp: [u8; 6] = [0x1b, 0x5b, 0x31, 0x3b, 0x31, 0x52];
        let v = bytes_of(&resp);
        assert(v@ =~= cpr_response());
        return Some(v);
    }
    assert(params == seq![0x35u8] ==> n == 1 && data[param_start as int] == 0x35u8);
    assert(params == seq![0x36u8] ==> n == 1 && data[param_start as int] == 0x36u8);
    None
}

/// The responses that the queries in one chunk of PTY output call for, in the
/// order of the queries. Answering them is writing each one back to the PTY.
pub fn terminal_query_responses(data: &[u8]) -> (responses: Vec<Vec<u8>>)
    ensures
        responses@.map_values(|v: Vec<u8>| v@) == query_responses_from(data@, 0),
{
    let mut responses: Vec<Vec<u8>> = Vec::new();
    let mut scan_idx: usize = 0;
    while scan_idx < data.len()
        invariant
            scan_idx <= data@.len(),
            responses@.map_values(|v: Vec<u8>| v@) + query_responses_from(data@, scan_idx as int)
                == query_responses_from(data@, 0),
        decreases data.len() - scan_idx,
    {
        let ghost before = responses@.map_values(|v: Vec<u8>| v@);
        if data[scan_idx] == 0x1b && scan_idx + 1 < data.len() && data[scan_idx + 1] == 0x5b {
            let mut param_idx = scan_idx + 2;
            let param_start = param_idx;
            proof {
                lemma_csi_params_end(data@, param_start as int);
            }
            while param_idx < data.len() && 0x30 <= data[param_idx] && data[param_idx] <= 0x3f
                invariant
                    param_start <= param_idx <= data@.len(),
                    param_start == scan_idx + 2,
                    csi_params_end(data@, param_idx as int) == csi_params_end(data@, param_start as int),
                decreases data.len() - param_idx,
            {
                param_idx += 1;
            }
            if param_idx < data.len() {
                let final_byte = data[param_idx];
                match response_for(data, param_start, param_idx, final_byte) {
                    Some(r) => {
                        responses.push(r);
                        assert(responses@.map_values(|v: Vec<u8>| v@) == before.push(r@));
                        assert(before.push(r@) + query_responses_from(data@, param_idx + 1)
                            =~= before + (seq![r@] + query_responses_from(data@, param_idx + 1)));
                    },
                    None => {},
                }
                scan_idx = param_idx + 1;
            } else {
                assert(responses@.map_values(|v: Vec<u8>| v@) + Seq::<Seq<u8>>::empty()
                    =~= responses@.map_values(|v: Vec<u8>| v@));
                return responses;
            }
        } else {
            scan_idx += 1;
        }
    }
    assert(responses@.map_values(|v: Vec<u8>| v@) + Seq::<Seq<u8>>::empty()
        =~= responses@.map_values(|v: Vec<u8>| v@));
    responses
}

/// `ESC [` followed by digits and `;`, then `J`, with the text between being
/// exactly `2` or `3`, starts at `i` (clear screen / clear scrollback).
pub open spec fn is_digit_or_semicolon(b: u8) -> bool {
    (0x30 <= b <= 0x39) || b == 0x3bu8
}

/// End of the run of digits and semicolons that starts at `i`.
pub open spec fn digits_end(s: Seq<u8>, i: int) -> int
    decreases s.len() - i,
{
    if i < 0 || i >= s.len() || !is_digit_or_semicolon(s[i]) {
        i
    } else {
        digits_end(s, i + 1)
    }
}

/// Whether the scan of `s` from `i` on finds a clear sequence `ESC[2J` or `ESC[3J`.
pub open spec fn has_clear_from(s: Seq<u8>, i: int) -> bool
    decreases s.len() - i,
{
    if i < 0 || i + 2 >= s.len() {
        false
    } else if s[i] == 0x1bu8 && s[i + 1] == 0x5bu8 {
        let j = digits_end(s, i + 2);
        if j < s.len() && s[j] == 0x4au8 && j == i + 3 && (s[i + 2] == 0x32u8 || s[i + 2]
            == 0x33u8) {
            true
        } else if i < j <= s.len() {
            has_clear_from(s, j)
        } else {
            false
        }
    } else {
        has_clear_from(s, i + 1)
    }
}

proof fn lemma_digits_end(s: Seq<u8>, i: int)
    requires
        0 <= i <= s.len(),
    ensures
        i <= digits_end(s, i) <= s.len(),
    decreases s.len() - i,
{
    if i < s.len() && is_digit_or_semicolon(s[i]) {
        lemma_digits_end(s, i + 1);
    }
}

/// Check if data contains a clear screen sequence (`ESC[2J` or `ESC[3J`).
pub fn contains_clear_sequence(data: &[u8]) -> (r: bool)
    ensures
        r == has_clear_from(data@, 0),
{
    let mut i: usize = 0;
    while i < data.len() && data.len() - i > 2
        invariant
            i <= data@.len(),
            has_clear_from(data@, i as int) == has_clear_from(data@, 0),
        decreases data.len() - i,
    {
        if data[i] == 0x1b && data[i + 1] == 0x5b {
            let mut j = i + 2;
            proof {
                lemma_digits_end(data@, (i + 2) as int);
            }
            while j < data.len() && ((0x30 <= data[j] && data[j] <= 0x39) || data[j] == 0x3b)
                invariant
                    i + 2 <= j <= data@.len(),
                    digits_end(data@, j as int) == digits_end(data@, i + 2),
                decreases data.len() - j,
            {
                j += 1;
            }
            if j < data.len() && data[j] == 0x4a {
                if j == i + 3 && (data[i + 2] == 0x32 || data[i + 2] == 0x33) {
                    return true;
                }
            }
            i = j;
        } else {
            i += 1;
        }
    }
    false
}

} // verus!
