use vstd::prelude::*;

verus! {

/// The character that writes the decimal digit `d`.
pub open spec fn digit_char(d: nat) -> char {
    if d == 0 {
        '0'
    } else if d == 1 {
        '1'
    } else if d == 2 {
        '2'
    } else if d == 3 {
        '3'
    } else if d == 4 {
        '4'
    } else if d == 5 {
        '5'
    } else if d == 6 {
        '6'
    } else if d == 7 {
        '7'
    } else if d == 8 {
        '8'
    } else {
        '9'
    }
}

/// Decimal notation of `n`, without sign or leading zeros.
pub open spec fn decimal(n: nat) -> Seq<char>
    decreases n,
{
    if n < 10 {
        seq![digit_char(n)]
    } else {
        decimal(n / 10).push(digit_char(n % 10))
    }
}

/// `host`, a colon, and the port in decimal.
pub open spec fn host_port(host: Seq<char>, port: nat) -> Seq<char> {
    host + seq![':'] + decimal(port)
}

/// `s` with every slash dropped that directly follows another slash.
pub open spec fn collapse_slashes(s: Seq<char>) -> Seq<char>
    decreases s.len(),
{
    if s.len() == 0 {
        s
    } else if s.len() >= 2 && s[s.len() - 1] == '/' && s[s.len() - 2] == '/' {
        collapse_slashes(s.drop_last())
    } else {
        collapse_slashes(s.drop_last()).push(s.last())
    }
}

/// No slash of `s` directly follows another slash.
pub open spec fn no_double_slash(s: Seq<char>) -> bool {
    forall|i: int| 0 <= i && i + 1 < s.len() ==> !(s[i] == '/' && #[trigger] s[i + 1] == '/')
}

/// Path of the child `name` of the directory `dirname`: the two joined by a
/// slash, with runs of slashes collapsed to one.
pub open spec fn child_path(dirname: Seq<char>, name: Seq<char>) -> Seq<char> {
    collapse_slashes(dirname + seq!['/'] + name)
}

fn digit_str(d: u32) -> (s: &'static str)
    requires
        d < 10,
    ensures
        s@ == seq![digit_char(d as nat)],
{
    proof {
        reveal_strlit("0");
        reveal_strlit("1");
        reveal_strlit("2");
        reveal_strlit("3");
        reveal_strlit("4");
        reveal_strlit("5");
        reveal_strlit("6");
        reveal_strlit("7");
        reveal_strlit("8");
        reveal_strlit("9");
    }
    let s = if d == 0 {
        "0"
    } else if d == 1 {
        "1"
    } else if d == 2 {
        "2"
    } else if d == 3 {
        "3"
    } else if d == 4 {
        "4"
    } else if d == 5 {
        "5"
    } else if d == 6 {
        "6"
    } else if d == 7 {
        "7"
    } else if d == 8 {
        "8"
    } else {
        "9"
    };
    assert(s@ =~= seq![digit_char(d as nat)]);
    s
}

/// Writes `n` in decimal.
pub fn decimal_string(n: u32) -> (s: String)
    ensures
        s@ == decimal(n as nat),
    decreases n,
{
    if n < 10 {
        String::from_str(digit_str(n))
    } else {
        let mut s = decimal_string(n / 10);
        s.append(digit_str(n % 10));
        proof {
            assert(s@ =~= decimal(n as nat));
        }
        s
    }
}

/// Joins a host name and a port into `host:port`.
pub fn host_port_string(host: &str, port: u32) -> (s: String)
    ensures
        s@ == host_port(host@, port as nat),
{
    proof {
        reveal_strlit(":");
    }
    let mut s = String::from_str(host);
    s.append(":");
    let digits = decimal_string(port);
    s.append(digits.as_str());
    proof {
        assert(s@ =~= host_port(host@, port as nat));
    }
    s
}

/// Whether `s` begins with `prefix`.
pub fn starts_with(s: &str, prefix: &str) -> (b: bool)
    ensures
        b == prefix@.is_prefix_of(s@),
{
    let n = prefix.unicode_len();
    if s.unicode_len() < n {
        return false;
    }
    let mut i: usize = 0;
    while i < n
        invariant
            n == prefix@.len(),
            n <= s@.len(),
            i <= n,
            forall|j: int| 0 <= j < i ==> s@[j] == prefix@[j],
        decreases n - i,
    {
        if s.get_char(i) != prefix.get_char(i) {
            proof {
                assert(s@.subrange(0, n as int)[i as int] != prefix@[i as int]);
            }
            return false;
        }
        i += 1;
    }
    proof {
        assert(s@.subrange(0, n as int) =~= prefix@);
    }
    true
}

/// Whether the two strings hold the same characters.
pub fn same_text(a: &str, b: &str) -> (same: bool)
    ensures
        same == (a@ == b@),
{
    let same = a.unicode_len() == b.unicode_len() && starts_with(a, b);
    proof {
        if same {
            assert(a@.subrange(0, b@.len() as int) =~= a@);
        }
    }
    same
}

/// Drops every slash that directly follows another slash.
pub fn collapse_slashes_string(s: &str) -> (r: String)
    ensures
        r@ == collapse_slashes(s@),
{
    let n = s.unicode_len();
    let mut r = String::new();
    let mut i: usize = 0;
    proof {
        assert(s@.subrange(0, 0) =~= Seq::<char>::empty());
    }
    while i < n
        invariant
            n == s@.len(),
            i <= n,
            r@ == collapse_slashes(s@.subrange(0, i as int)),
        decreases n - i,
    {
        let c = s.get_char(i);
        let ghost before = s@.subrange(0, i as int);
        let ghost upto = s@.subrange(0, i as int + 1);
        proof {
            assert(upto.drop_last() =~= before);
            assert(upto.last() == c);
        }
        if c == '/' && i > 0 && s.get_char(i - 1) == '/' {
            proof {
                assert(upto[upto.len() - 2] == '/');
            }
        } else {
            r.append(s.substring_char(i, i + 1));
            proof {
                assert(s@.subrange(i as int, i as int + 1) =~= seq![c]);
                assert(r@ =~= collapse_slashes(before).push(c));
            }
        }
        i += 1;
    }
    proof {
        assert(s@.subrange(0, n as int) =~= s@);
    }
    r
}

/// Collapsing leaves no slash directly after another, and keeps the last
/// character of a non-empty input.
pub proof fn lemma_collapse_slashes(s: Seq<char>)
    ensures
        no_double_slash(collapse_slashes(s)),
        collapse_slashes(s).len() <= s.len(),
        s.len() > 0 ==> collapse_slashes(s).len() > 0 && collapse_slashes(s).last() == s.last(),
    decreases s.len(),
{
    if s.len() > 0 {
        let t = s.drop_last();
        lemma_collapse_slashes(t);
        let ct = collapse_slashes(t);
        if s.len() >= 2 && s[s.len() - 1] == '/' && s[s.len() - 2] == '/' {
            assert(t.last() == '/');
        } else {
            let r = ct.push(s.last());
            assert forall|i: int| 0 <= i && i + 1 < r.len() implies !(r[i] == '/' && #[trigger] r[i
                + 1] == '/') by {
                if i + 1 < ct.len() {
                    assert(r[i] == ct[i] && r[i + 1] == ct[i + 1]);
                } else {
                    assert(r[i] == ct.last());
                    assert(ct.last() == t.last());
                    assert(t.last() == s[s.len() - 2]);
                }
            }
        }
    }
}

/// A string without doubled slashes is left as it is.
pub proof fn lemma_collapse_slashes_fixed(s: Seq<char>)
    requires
        no_double_slash(s),
    ensures
        collapse_slashes(s) == s,
    decreases s.len(),
{
    if s.len() > 0 {
        let t = s.drop_last();
        assert forall|i: int| 0 <= i && i + 1 < t.len() implies !(t[i] == '/' && #[trigger] t[i
            + 1] == '/') by {
            assert(s[i + 1] == t[i + 1]);
        }
        lemma_collapse_slashes_fixed(t);
        if s.len() >= 2 {
            assert(s[s.len() - 2 + 1] == s.last());
        }
        assert(t.push(s.last()) =~= s);
    }
}

/// Builds the path of a directory's child.
pub fn child_path_string(dirname: &str, name: &str) -> (r: String)
    ensures
        r@ == child_path(dirname@, name@),
{
    proof {
        reveal_strlit("/");
    }
    let mut joined = String::from_str(dirname);
    joined.append("/");
    joined.append(name);
    proof {
        assert(joined@ =~= dirname@ + seq!['/'] + name@);
    }
    collapse_slashes_string(joined.as_str())
}

} // verus!
