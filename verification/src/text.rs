//! The texts that the client makes up itself.

use vstd::prelude::*;
use vstd::string::StringExecFns;

verus! {

/// What the user is asked for when there is no session to restore.
pub const PASSWORD_PROMPT: &'static str = "Password: ";

/// A digit as a character.
pub open spec fn digit(d: nat) -> char {
    ('0' as u32 + d) as char
}

/// A number in decimal notation.
pub open spec fn decimal(n: nat) -> Seq<char>
    decreases n,
{
    if n < 10 {
        seq![digit(n)]
    } else {
        decimal(n / 10).push(digit(n % 10))
    }
}

/// A text between two others.
fn enclose(left: &str, text: &str, right: &str) -> (whole: String)
    ensures
        whole@ == left@ + text@ + right@,
{
    let mut whole = String::new();
    whole.append(left);
    whole.append(text);
    whole.append(right);
    whole
}

/// The title of the terminal window.
pub fn window_title(user_id: &str) -> (title: String)
    ensures
        title@ == "iamb ("@ + user_id@ + ")"@,
{
    enclose("iamb (", user_id, ")")
}

/// The beginning of the names of a profile's log files.
pub fn log_prefix(profile_name: &str) -> (prefix: String)
    ensures
        prefix@ == "iamb-log-"@ + profile_name@,
{
    let prefix = enclose("iamb-log-", profile_name, "");
    proof {
        reveal_strlit("");
    }
    prefix
}

/// What is said before a login.
pub fn login_notice(user_id: &str) -> (notice: String)
    ensures
        notice@ == "Logging in for "@ + user_id@ + "..."@,
{
    enclose("Logging in for ", user_id, "...")
}

/// What is said when a login was refused.
pub fn login_refusal(reason: &str) -> (refusal: String)
    ensures
        refusal@ == "Failed to login: "@ + reason@,
{
    let refusal = enclose("Failed to login: ", reason, "");
    proof {
        reveal_strlit("");
    }
    refusal
}

/// A digit as a text.
fn digit_text(d: usize) -> (text: &'static str)
    requires
        d < 10,
    ensures
        text@ == seq![digit(d as nat)],
{
    proof {
        reveal_strlit("0");
        reveal_strlit("1");
        reveal_strlit("2");
        reveal_strlit("3");
        reveal_strlit("4");
        reveal_strlit("5");
        reveal_strlit("6");
        reveal_strlit("7");
        reveal_strlit("8");
        reveal_strlit("9");
    }
    match d {
        0 => "0",
        1 => "1",
        2 => "2",
        3 => "3",
        4 => "4",
        5 => "5",
        6 => "6",
        7 => "7",
        8 => "8",
        _ => "9",
    }
}

/// Writes a number in decimal notation at the end of a text.
fn append_decimal(text: &mut String, n: usize)
    ensures
        final(text)@ == old(text)@ + decimal(n as nat),
    decreases n,
{
    if n >= 10 {
        append_decimal(text, n / 10);
    }
    text.append(digit_text(n % 10));
}

/// The name of the thread with this number.
pub fn worker_name(id: usize) -> (name: String)
    ensures
        name@ == "iamb-worker-"@ + decimal(id as nat),
{
    let mut name = String::new();
    name.append("iamb-worker-");
    append_decimal(&mut name, id);
    name
}

/// Different numbers have different decimal notations.
proof fn lemma_decimal_injective(m: nat, n: nat)
    requires
        decimal(m) == decimal(n),
    ensures
        m == n,
    decreases m + n,
{
    assert(decimal(m).last() == digit(m % 10));
    assert(decimal(n).last() == digit(n % 10));
    if m < 10 && n >= 10 {
        lemma_decimal_nonempty(n / 10);
        assert(decimal(n).len() > decimal(m).len());
    } else if n < 10 && m >= 10 {
        lemma_decimal_nonempty(m / 10);
        assert(decimal(m).len() > decimal(n).len());
    } else if m >= 10 {
        assert(decimal(m).drop_last() =~= decimal(m / 10));
        assert(decimal(n).drop_last() =~= decimal(n / 10));
        lemma_decimal_injective(m / 10, n / 10);
    }
}

/// A decimal notation has at least one digit.
proof fn lemma_decimal_nonempty(n: nat)
    ensures
        decimal(n).len() > 0,
{
}

/// The number that a decimal notation stands for.
pub open spec fn number(text: Seq<char>) -> int
    decreases text.len(),
{
    if text.len() == 0 {
        0
    } else {
        10 * number(text.drop_last()) + (text.last() as int - '0' as int)
    }
}

/// A number is written with decimal digits only, without leading zeros, and what is written
/// stands for that number.
pub proof fn law_numbers_read_back(n: nat)
    ensures
        decimal(n).len() > 0,
        number(decimal(n)) == n,
        forall|i: int| 0 <= i < decimal(n).len() ==> '0' <= #[trigger] decimal(n)[i] <= '9',
        decimal(n)[0] == '0' ==> n == 0 && decimal(n).len() == 1,
    decreases n,
{
    if n >= 10 {
        law_numbers_read_back(n / 10);
        assert(decimal(n).drop_last() =~= decimal(n / 10));
        assert(decimal(n)[0] == decimal(n / 10)[0]);
    } else {
        assert(decimal(n).drop_last() =~= Seq::<char>::empty());
        assert(number(decimal(n).drop_last()) == 0);
    }
}

/// Threads with different numbers have different names.
pub proof fn law_worker_names_differ(m: nat, n: nat)
    requires
        m != n,
    ensures
        "iamb-worker-"@ + decimal(m) != "iamb-worker-"@ + decimal(n),
{
    let prefix = "iamb-worker-"@;
    if prefix + decimal(m) == prefix + decimal(n) {
        assert((prefix + decimal(m)).skip(prefix.len() as int) =~= decimal(m));
        assert((prefix + decimal(n)).skip(prefix.len() as int) =~= decimal(n));
        lemma_decimal_injective(m, n);
    }
}

} // verus!
