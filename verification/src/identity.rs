//! The identity of the process at the other end of the IPC connection.
//!
//! The PID and UID come from the transport, which asks the kernel; the
//! executable's path is resolved from the PID by whoever builds the
//! identity, since the transport does not give it.
use vstd::prelude::*;

verus! {

/// Who is calling: what the kernel told about the connected process.
#[derive(Debug, Clone, PartialEq, Eq)]
pub struct CallerIdentity {
    pub pid: Option<u32>,
    pub uid: Option<u32>,
    /// The path of the caller's executable, where it could be resolved.
    pub exe_path: Option<String>,
}

/// The decimal digit for `d`.
pub open spec fn digit_char(d: nat) -> char {
    if d == 0 {
        '0'
    } else if d == 1 {
        '1'
    } else if d == 2 {
        '2'
    } else if d == 3 {
        '3'
    } else if d == 4 {
        '4'
    } else if d == 5 {
        '5'
    } else if d == 6 {
        '6'
    } else if d == 7 {
        '7'
    } else if d == 8 {
        '8'
    } else {
        '9'
    }
}

/// The decimal notation of `n`, without leading zeros.
pub open spec fn decimal(n: nat) -> Seq<char>
    decreases n,
{
    if n < 10 {
        seq![digit_char(n)]
    } else {
        decimal(n / 10) + seq![digit_char(n % 10)]
    }
}

/// The key under which the policy engine looks up rules for a caller: the
/// executable's path where it is known, else `pid:<n>`, else `unknown`.
pub open spec fn key_of(pid: Option<u32>, exe_path: Option<Seq<char>>) -> Seq<char> {
    match exe_path {
        Some(path) => path,
        None => match pid {
            Some(n) => "pid:"@ + decimal(n as nat),
            None => "unknown"@,
        },
    }
}

/// The characters of an optional string.
pub open spec fn opt_string_view(s: Option<String>) -> Option<Seq<char>> {
    match s {
        Some(x) => Some(x@),
        None => None,
    }
}

/// The one-character string of the digit `d`.
fn digit_str(d: u32) -> (r: &'static str)
    requires
        d < 10,
    ensures
        r@ == seq![digit_char(d as nat)],
{
    proof {
        reveal_strlit("0");
        reveal_strlit("1");
        reveal_strlit("2");
        reveal_strlit("3");
        reveal_strlit("4");
        reveal_strlit("5");
        reveal_strlit("6");
        reveal_strlit("7");
        reveal_strlit("8");
        reveal_strlit("9");
    }
    match d {
        0 => "0",
        1 => "1",
        2 => "2",
        3 => "3",
        4 => "4",
        5 => "5",
        6 => "6",
        7 => "7",
        8 => "8",
        _ => "9",
    }
}

/// The decimal notation of `n`.
pub fn decimal_string(n: u32) -> (r: String)
    ensures
        r@ == decimal(n as nat),
    decreases n,
{
    if n < 10 {
        String::from_str(digit_str(n))
    } else {
        let mut s = decimal_string(n / 10);
        s.append(digit_str(n % 10));
        s
    }
}

impl CallerIdentity {
    /// The identity of a caller with the given PID and UID. `resolved_exe`
    /// is the path of the executable that runs under `pid`, as resolved by
    /// the caller of this function; it is dropped where there is no PID.
    pub fn new(pid: Option<u32>, uid: Option<u32>, resolved_exe: Option<String>) -> (r: Self)
        ensures
            r.pid == pid,
            r.uid == uid,
            r.exe_path == (if pid is Some {
                resolved_exe
            } else {
                None
            }),
    {
        let exe_path = match pid {
            Some(_) => resolved_exe,
            None => None,
        };
        CallerIdentity { pid, uid, exe_path }
    }

    /// The key of this caller, as `key_of` says.
    pub open spec fn spec_policy_key(&self) -> Seq<char> {
        key_of(self.pid, opt_string_view(self.exe_path))
    }

    /// The key under which the policy engine looks up rules for this
    /// caller. It prefers the executable's path; it falls back to
    /// `pid:<n>` where the path could not be resolved, and to `unknown`
    /// where there is not even a PID.
    pub fn policy_key(&self) -> (r: String)
        ensures
            r@ == self.spec_policy_key(),
    {
        match &self.exe_path {
            Some(path) => path.clone(),
            None => match self.pid {
                Some(pid) => {
                    let mut s = String::from_str("pid:");
                    let digits = decimal_string(pid);
                    s.append(digits.as_str());
                    s
                },
                None => String::from_str("unknown"),
            },
        }
    }
}

/// The value of a decimal digit.
pub open spec fn digit_value(c: char) -> nat {
    ((c as u32) - ('0' as u32)) as nat
}

/// Whether `c` is one of the ASCII digits `0` to `9`.
pub open spec fn is_digit(c: char) -> bool {
    '0' as u32 <= c as u32 <= '9' as u32
}

/// The number that a string of decimal digits stands for, read in base 10.
pub open spec fn digits_value(s: Seq<char>) -> nat
    decreases s.len(),
{
    if s.len() == 0 {
        0
    } else {
        digits_value(s.drop_last()) * 10 + digit_value(s.last())
    }
}

proof fn lemma_digit_char(d: nat)
    requires
        d < 10,
    ensures
        is_digit(digit_char(d)),
        digit_value(digit_char(d)) == d,
        digit_char(d) == '0' <==> d == 0,
{
}

/// `decimal(n)` is the base-10 numeral of `n`: it is made of ASCII digits,
/// it begins with `0` only for zero itself, and read back in base 10 it
/// gives `n`.
pub proof fn lemma_decimal_is_numeral(n: nat)
    ensures
        decimal(n).len() >= 1,
        forall|i: int| 0 <= i < decimal(n).len() ==> is_digit(#[trigger] decimal(n)[i]),
        decimal(n)[0] == '0' <==> n == 0,
        digits_value(decimal(n)) == n,
    decreases n,
{
    if n < 10 {
        lemma_digit_char(n);
        let s = decimal(n);
        assert(s.drop_last() =~= Seq::<char>::empty());
        assert(digits_value(s) == digits_value(s.drop_last()) * 10 + digit_value(s.last()));
        assert(digits_value(s.drop_last()) == 0);
    } else {
        let q = n / 10;
        let d = n % 10;
        lemma_decimal_is_numeral(q);
        lemma_digit_char(d);
        let s = decimal(n);
        assert(s == decimal(q) + seq![digit_char(d)]);
        assert(s.drop_last() =~= decimal(q));
        assert(s.last() == digit_char(d));
        assert forall|i: int| 0 <= i < s.len() implies is_digit(#[trigger] s[i]) by {
            if i < decimal(q).len() {
                assert(s[i] == decimal(q)[i]);
            }
        }
        assert(s[0] == decimal(q)[0]);
        assert(n == q * 10 + d);
        assert(digits_value(s) == digits_value(s.drop_last()) * 10 + digit_value(s.last()));
    }
}

/// Different numbers have different numerals.
pub proof fn lemma_decimal_injective(a: nat, b: nat)
    requires
        decimal(a) == decimal(b),
    ensures
        a == b,
{
    lemma_decimal_is_numeral(a);
    lemma_decimal_is_numeral(b);
}

/// Callers told apart by their PID alone get different policy keys.
pub proof fn lemma_pid_keys_distinct(a: u32, b: u32)
    requires
        a != b,
    ensures
        key_of(Some(a), None) != key_of(Some(b), None),
{
    let ka = key_of(Some(a), None);
    let kb = key_of(Some(b), None);
    let p = "pid:"@;
    if ka == kb {
        assert(ka.skip(p.len() as int) =~= decimal(a as nat));
        assert(kb.skip(p.len() as int) =~= decimal(b as nat));
        lemma_decimal_injective(a as nat, b as nat);
    }
}

} // verus!
