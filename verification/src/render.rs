//! Rendering of the registry into the Prometheus text exposition format.
//!
//! The rendered page is pinned down character for character as a function of
//! the registry state: a `# HELP`/`# TYPE` pair and value line for the error
//! counter, then the histogram's thirteen cumulative bucket lines in
//! ascending bound order, the `+Inf` bucket (the total count), the latency
//! sum in seconds with nine fixed decimal places, and the total count.
//! Bucket labels carry the bounds in seconds; the counts are kept against
//! the same bounds in nanoseconds.

use crate::registry::MetricsRegistry;
use crate::registry::RegistryView;
use vstd::prelude::*;
use vstd::string::StringExecFns;

verus! {

/// The character of decimal digit `d`.
pub open spec fn digit_char(d: int) -> char {
    if d == 0 {
        '0'
    } else if d == 1 {
        '1'
    } else if d == 2 {
        '2'
    } else if d == 3 {
        '3'
    } else if d == 4 {
        '4'
    } else if d == 5 {
        '5'
    } else if d == 6 {
        '6'
    } else if d == 7 {
        '7'
    } else if d == 8 {
        '8'
    } else {
        '9'
    }
}

/// Decimal digits of `n`, most significant first, with no leading zeroes
/// (the single digit `0` for `n == 0`).
pub open spec fn dec_digits(n: nat) -> Seq<char>
    decreases n,
{
    if n < 10 {
        seq![digit_char(n as int)]
    } else {
        dec_digits(n / 10) + seq![digit_char((n % 10) as int)]
    }
}

/// The nine digits after the decimal point of `f / 1_000_000_000` seconds,
/// most significant first, zero-padded to exactly nine places.
pub open spec fn frac9_digits(f: int) -> Seq<char> {
    seq![
        digit_char(f / 100_000_000 % 10),
        digit_char(f / 10_000_000 % 10),
        digit_char(f / 1_000_000 % 10),
        digit_char(f / 100_000 % 10),
        digit_char(f / 10_000 % 10),
        digit_char(f / 1_000 % 10),
        digit_char(f / 100 % 10),
        digit_char(f / 10 % 10),
        digit_char(f % 10),
    ]
}

proof fn lemma_add_assoc<A>(a: Seq<A>, b: Seq<A>, c: Seq<A>)
    ensures
        (a + b) + c == a + (b + c),
{
    assert((a + b) + c =~= a + (b + c));
}

fn push_digit(s: &mut String, d: u64)
    requires
        d < 10,
    ensures
        final(s)@ == old(s)@ + seq![digit_char(d as int)],
{
    if d == 0 {
        proof {
            reveal_strlit("0");
            assert("0"@ =~= seq![digit_char(0)]);
        }
        s.append("0");
    } else if d == 1 {
        proof {
            reveal_strlit("1");
            assert("1"@ =~= seq![digit_char(1)]);
        }
        s.append("1");
    } else if d == 2 {
        proof {
            reveal_strlit("2");
            assert("2"@ =~= seq![digit_char(2)]);
        }
        s.append("2");
    } else if d == 3 {
        proof {
            reveal_strlit("3");
            assert("3"@ =~= seq![digit_char(3)]);
        }
        s.append("3");
    } else if d == 4 {
        proof {
            reveal_strlit("4");
            assert("4"@ =~= seq![digit_char(4)]);
        }
        s.append("4");
    } else if d == 5 {
        proof {
            reveal_strlit("5");
            assert("5"@ =~= seq![digit_char(5)]);
        }
        s.append("5");
    } else if d == 6 {
        proof {
            reveal_strlit("6");
            assert("6"@ =~= seq![digit_char(6)]);
        }
        s.append("6");
    } else if d == 7 {
        proof {
            reveal_strlit("7");
            assert("7"@ =~= seq![digit_char(7)]);
        }
        s.append("7");
    } else if d == 8 {
        proof {
            reveal_strlit("8");
            assert("8"@ =~= seq![digit_char(8)]);
        }
        s.append("8");
    } else {
        proof {
            reveal_strlit("9");
            assert("9"@ =~= seq![digit_char(9)]);
        }
        s.append("9");
    }
}

fn push_u64(s: &mut String, n: u64)
    ensures
        final(s)@ == old(s)@ + dec_digits(n as nat),
    decreases n,
{
    if n >= 10 {
        push_u64(s, n / 10);
        push_digit(s, n % 10);
        proof {
            lemma_add_assoc(
                old(s)@,
                dec_digits((n / 10) as nat),
                seq![digit_char((n % 10) as int)],
            );
        }
    } else {
        push_digit(s, n);
    }
}

/// The decimal rendering of `n`, most significant digit first, no leading
/// zeroes.
pub fn decimal_string(n: u64) -> (s: String)
    ensures
        s@ == dec_digits(n as nat),
{
    let mut s = String::new();
    push_u64(&mut s, n);
    proof {
        Seq::<char>::add_empty_left(Seq::<char>::empty(), dec_digits(n as nat));
    }
    s
}

fn push_frac9(s: &mut String, f: u64)
    requires
        f < 1_000_000_000,
    ensures
        final(s)@ == old(s)@ + frac9_digits(f as int),
{
    push_digit(s, f / 100_000_000 % 10);
    push_digit(s, f / 10_000_000 % 10);
    push_digit(s, f / 1_000_000 % 10);
    push_digit(s, f / 100_000 % 10);
    push_digit(s, f / 10_000 % 10);
    push_digit(s, f / 1_000 % 10);
    push_digit(s, f / 100 % 10);
    push_digit(s, f / 10 % 10);
    push_digit(s, f % 10);
    proof {
        assert(s@ =~= old(s)@ + frac9_digits(f as int));
    }
}

/// The full metrics page for registry state `v`, character for character:
/// the error counter, then the histogram's cumulative bucket lines in
/// ascending bound order, the `+Inf` bucket (which is the total count), the
/// latency sum in seconds with nine decimal places, and the total count.
pub open spec fn render_text(v: RegistryView) -> Seq<char> {
    "# HELP errors_total Number of read errors\n# TYPE errors_total counter\nerrors_total "@
        + dec_digits(v.errors as nat)
        + "\n# HELP read_time_seconds Time taken to read (latency)\n# TYPE read_time_seconds histogram\nread_time_seconds_bucket{le=\"0.0001\"} "@
        + dec_digits(v.buckets[0] as nat)
        + "\nread_time_seconds_bucket{le=\"0.00025\"} "@
        + dec_digits(v.buckets[1] as nat)
        + "\nread_time_seconds_bucket{le=\"0.0005\"} "@
        + dec_digits(v.buckets[2] as nat)
        + "\nread_time_seconds_bucket{le=\"0.001\"} "@
        + dec_digits(v.buckets[3] as nat)
        + "\nread_time_seconds_bucket{le=\"0.0025\"} "@
        + dec_digits(v.buckets[4] as nat)
        + "\nread_time_seconds_bucket{le=\"0.005\"} "@
        + dec_digits(v.buckets[5] as nat)
        + "\nread_time_seconds_bucket{le=\"0.01\"} "@
        + dec_digits(v.buckets[6] as nat)
        + "\nread_time_seconds_bucket{le=\"0.025\"} "@
        + dec_digits(v.buckets[7] as nat)
        + "\nread_time_seconds_bucket{le=\"0.05\"} "@
        + dec_digits(v.buckets[8] as nat)
        + "\nread_time_seconds_bucket{le=\"0.1\"} "@
        + dec_digits(v.buckets[9] as nat)
        + "\nread_time_seconds_bucket{le=\"0.25\"} "@
        + dec_digits(v.buckets[10] as nat)
        + "\nread_time_seconds_bucket{le=\"0.5\"} "@
        + dec_digits(v.buckets[11] as nat)
        + "\nread_time_seconds_bucket{le=\"1\"} "@
        + dec_digits(v.buckets[12] as nat)
        + "\nread_time_seconds_bucket{le=\"+Inf\"} "@
        + dec_digits(v.count as nat)
        + "\nread_time_seconds_sum "@
        + dec_digits((v.sum_ns / 1_000_000_000) as nat)
        + "."@
        + frac9_digits((v.sum_ns % 1_000_000_000) as int)
        + "\nread_time_seconds_count "@
        + dec_digits(v.count as nat)
        + "\n"@
}

impl MetricsRegistry {
    /// Render the current registry state as the Prometheus text page. The
    /// result depends on the registry state alone.
    pub fn snapshot(&self) -> (s: String)
        requires
            self@.inv(),
        ensures
            s@ == render_text(self@),
    {
        let mut s = String::new();
        s.append(
            "# HELP errors_total Number of read errors\n# TYPE errors_total counter\nerrors_total ",
        );
        push_u64(&mut s, self.errors_total());
        s.append(
            "\n# HELP read_time_seconds Time taken to read (latency)\n# TYPE read_time_seconds histogram\nread_time_seconds_bucket{le=\"0.0001\"} ",
        );
        push_u64(&mut s, self.bucket_count(0));
        s.append("\nread_time_seconds_bucket{le=\"0.00025\"} ");
        push_u64(&mut s, self.bucket_count(1));
        s.append("\nread_time_seconds_bucket{le=\"0.0005\"} ");
        push_u64(&mut s, self.bucket_count(2));
        s.append("\nread_time_seconds_bucket{le=\"0.001\"} ");
        push_u64(&mut s, self.bucket_count(3));
        s.append("\nread_time_seconds_bucket{le=\"0.0025\"} ");
        push_u64(&mut s, self.bucket_count(4));
        s.append("\nread_time_seconds_bucket{le=\"0.005\"} ");
        push_u64(&mut s, self.bucket_count(5));
        s.append("\nread_time_seconds_bucket{le=\"0.01\"} ");
        push_u64(&mut s, self.bucket_count(6));
        s.append("\nread_time_seconds_bucket{le=\"0.025\"} ");
        push_u64(&mut s, self.bucket_count(7));
        s.append("\nread_time_seconds_bucket{le=\"0.05\"} ");
        push_u64(&mut s, self.bucket_count(8));
        s.append("\nread_time_seconds_bucket{le=\"0.1\"} ");
        push_u64(&mut s, self.bucket_count(9));
        s.append("\nread_time_seconds_bucket{le=\"0.25\"} ");
        push_u64(&mut s, self.bucket_count(10));
        s.append("\nread_time_seconds_bucket{le=\"0.5\"} ");
        push_u64(&mut s, self.bucket_count(11));
        s.append("\nread_time_seconds_bucket{le=\"1\"} ");
        push_u64(&mut s, self.bucket_count(12));
        s.append("\nread_time_seconds_bucket{le=\"+Inf\"} ");
        push_u64(&mut s, self.count());
        s.append("\nread_time_seconds_sum ");
        push_u64(&mut s, self.sum_ns() / 1_000_000_000);
        s.append(".");
        push_frac9(&mut s, self.sum_ns() % 1_000_000_000);
        s.append("\nread_time_seconds_count ");
        push_u64(&mut s, self.count());
        s.append("\n");
        proof {
            Seq::<char>::add_empty_left(
                Seq::<char>::empty(),
                "# HELP errors_total Number of read errors\n# TYPE errors_total counter\nerrors_total "@,
            );
        }
        s
    }
}

/// Snapshot idempotence: the rendered page is a pure function of the
/// registry state, so rendering the same state twice, with no write in
/// between, yields identical output.
pub proof fn lemma_snapshot_deterministic(v: RegistryView, s1: Seq<char>, s2: Seq<char>)
    requires
        s1 == render_text(v),
        s2 == render_text(v),
    ensures
        s1 == s2,
{
}

} // verus!
