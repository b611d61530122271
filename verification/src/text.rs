//! The text the renderer and the service emit: decimal numbers,
//! zero-padded `HH:MM:SS` durations, and the job URLs.

use vstd::prelude::*;
use vstd::string::StringExecFns;

verus! {

/// The character for one decimal digit.
pub open spec fn spec_digit_char(d: int) -> char {
    if d == 0 { '0' }
    else if d == 1 { '1' }
    else if d == 2 { '2' }
    else if d == 3 { '3' }
    else if d == 4 { '4' }
    else if d == 5 { '5' }
    else if d == 6 { '6' }
    else if d == 7 { '7' }
    else if d == 8 { '8' }
    else { '9' }
}

/// The decimal notation of `n`, most significant digit first, with no
/// leading zero except for `n == 0` itself.
pub open spec fn spec_decimal(n: int) -> Seq<char>
    decreases n,
{
    if n < 10 {
        seq![spec_digit_char(n)]
    } else {
        spec_decimal(n / 10).push(spec_digit_char(n % 10))
    }
}

/// The decimal notation of `n`, left-padded with zeros to at least two
/// characters.
pub open spec fn spec_padded2(n: int) -> Seq<char> {
    if n < 10 {
        seq!['0'] + spec_decimal(n)
    } else {
        spec_decimal(n)
    }
}

/// The decimal notation of `n`, left-padded with zeros to at least
/// three characters.
pub open spec fn spec_padded3(n: int) -> Seq<char> {
    if n < 10 {
        seq!['0', '0'] + spec_decimal(n)
    } else if n < 100 {
        seq!['0'] + spec_decimal(n)
    } else {
        spec_decimal(n)
    }
}

/// A duration of `secs` whole seconds as `HH:MM:SS`: hours, then
/// minutes and seconds below sixty, each at least two digits.
pub open spec fn spec_hms(secs: int) -> Seq<char> {
    spec_padded2((secs / 60) / 60) + seq![':'] + spec_padded2((secs / 60) % 60) + seq![':']
        + spec_padded2(secs % 60)
}

/// A duration of `ms` milliseconds as `HH:MM:SS.mmm`, the hours taken
/// modulo a day.
pub open spec fn spec_hms_millis(ms: int) -> Seq<char> {
    spec_padded2((ms / 3600000) % 24) + seq![':'] + spec_padded2((ms / 60000) % 60) + seq![':']
        + spec_padded2((ms / 1000) % 60) + seq!['.'] + spec_padded3(ms % 1000)
}

/// One decimal digit as a string slice.
fn digit_str(d: u64) -> (r: &'static str)
    requires
        d < 10,
    ensures
        r@ =~= seq![spec_digit_char(d as int)],
{
    proof {
        reveal_strlit("0");
        reveal_strlit("1");
        reveal_strlit("2");
        reveal_strlit("3");
        reveal_strlit("4");
        reveal_strlit("5");
        reveal_strlit("6");
        reveal_strlit("7");
        reveal_strlit("8");
        reveal_strlit("9");
    }
    match d {
        0 => "0",
        1 => "1",
        2 => "2",
        3 => "3",
        4 => "4",
        5 => "5",
        6 => "6",
        7 => "7",
        8 => "8",
        _ => "9",
    }
}

/// Writes `n` in decimal.
pub fn decimal_string(n: u64) -> (r: String)
    ensures
        r@ =~= spec_decimal(n as int),
    decreases n,
{
    if n < 10 {
        String::from_str(digit_str(n))
    } else {
        let mut s = decimal_string(n / 10);
        s.append(digit_str(n % 10));
        proof {
            assert(s@ =~= spec_decimal(n as int / 10).push(spec_digit_char(n as int % 10)));
        }
        s
    }
}

/// Writes `n` in decimal, left-padded with zeros to at least two
/// characters.
pub fn padded2_string(n: u64) -> (r: String)
    ensures
        r@ =~= spec_padded2(n as int),
{
    if n < 10 {
        proof {
            reveal_strlit("0");
        }
        let mut s = String::from_str("0");
        s.append(digit_str(n));
        proof {
            assert(s@ =~= seq!['0'] + spec_decimal(n as int));
        }
        s
    } else {
        decimal_string(n)
    }
}

/// Writes `n` in decimal, left-padded with zeros to at least three
/// characters.
pub fn padded3_string(n: u64) -> (r: String)
    ensures
        r@ =~= spec_padded3(n as int),
{
    if n < 100 {
        proof {
            reveal_strlit("0");
        }
        let mut s = String::from_str("0");
        let rest = padded2_string(n);
        s.append(rest.as_str());
        proof {
            assert(s@ =~= seq!['0'] + spec_padded2(n as int));
            assert(seq!['0'] + spec_padded2(n as int) =~= spec_padded3(n as int));
        }
        s
    } else {
        decimal_string(n)
    }
}

/// Writes a duration of whole seconds as zero-padded `HH:MM:SS`.
pub fn hms_string(secs: u64) -> (r: String)
    ensures
        r@ =~= spec_hms(secs as int),
{
    proof {
        reveal_strlit(":");
    }
    let minutes = secs / 60;
    let mut s = padded2_string(minutes / 60);
    s.append(":");
    let m = padded2_string(minutes % 60);
    s.append(m.as_str());
    s.append(":");
    let sec = padded2_string(secs % 60);
    s.append(sec.as_str());
    proof {
        assert(s@ =~= spec_hms(secs as int));
    }
    s
}

/// Writes a duration of milliseconds as zero-padded `HH:MM:SS.mmm`,
/// the hours wrapped at a day.
pub fn hms_millis_string(ms: u64) -> (r: String)
    ensures
        r@ =~= spec_hms_millis(ms as int),
{
    proof {
        reveal_strlit(":");
        reveal_strlit(".");
    }
    let mut s = padded2_string((ms / 3600000) % 24);
    s.append(":");
    let m = padded2_string((ms / 60000) % 60);
    s.append(m.as_str());
    s.append(":");
    let sec = padded2_string((ms / 1000) % 60);
    s.append(sec.as_str());
    s.append(".");
    let milli = padded3_string(ms % 1000);
    s.append(milli.as_str());
    proof {
        assert(s@ =~= spec_hms_millis(ms as int));
    }
    s
}

/// Where a job's status can be polled: the service root, a slash, the
/// job id.
pub fn status_url(root: &str, id: &str) -> (r: String)
    ensures
        r@ == root@ + "/"@ + id@,
{
    let mut s = String::from_str(root);
    s.append("/");
    s.append(id);
    proof {
        assert(s@ =~= root@ + "/"@ + id@);
    }
    s
}

/// The header of a plain-text PPM image: the magic number, the
/// dimensions, the channel maximum, and a separating blank line.
pub fn ppm_header(width: u64, height: u64) -> (r: String)
    ensures
        r@ == "P3\n"@ + spec_decimal(width as int) + " "@ + spec_decimal(height as int)
            + "\n255\n\n"@,
{
    let mut s = String::from_str("P3\n");
    let w = decimal_string(width);
    s.append(w.as_str());
    s.append(" ");
    let h = decimal_string(height);
    s.append(h.as_str());
    s.append("\n255\n\n");
    proof {
        assert(s@ =~= "P3\n"@ + spec_decimal(width as int) + " "@ + spec_decimal(height as int)
            + "\n255\n\n"@);
    }
    s
}

/// The path a client is redirected to while its image is not yet
/// ready: a slash, the job id.
pub fn redirect_path(id: &str) -> (r: String)
    ensures
        r@ == "/"@ + id@,
{
    let mut s = String::from_str("/");
    s.append(id);
    proof {
        assert(s@ =~= "/"@ + id@);
    }
    s
}

/// Where a finished image can be fetched: the status URL of the job
/// followed by `/download`.
pub fn download_url(root: &str, id: &str) -> (r: String)
    ensures
        r@ == root@ + "/"@ + id@ + "/download"@,
{
    let mut s = status_url(root, id);
    s.append("/download");
    proof {
        assert(s@ =~= root@ + "/"@ + id@ + "/download"@);
    }
    s
}

} // verus!
