//! Texts made from counters: the ids of events and the address of the server.
use vstd::prelude::*;
use vstd::string::*;

verus! {

/// The character of the decimal digit `d`.
pub open spec fn digit_char(d: int) -> char {
    if d == 0 {
        '0'
    } else if d == 1 {
        '1'
    } else if d == 2 {
        '2'
    } else if d == 3 {
        '3'
    } else if d == 4 {
        '4'
    } else if d == 5 {
        '5'
    } else if d == 6 {
        '6'
    } else if d == 7 {
        '7'
    } else if d == 8 {
        '8'
    } else {
        '9'
    }
}

/// The decimal text of `n`, without leading zeros.
pub open spec fn decimal(n: nat) -> Seq<char>
    decreases n,
{
    if n < 10 {
        seq![digit_char(n as int)]
    } else {
        decimal(n / 10) + seq![digit_char((n % 10) as int)]
    }
}

/// The text of the digit `d`.
fn digit_str(d: usize) -> (r: &'static str)
    requires
        d < 10,
    ensures
        r@ == seq![digit_char(d as int)],
{
    if d == 0 {
        proof {
            reveal_strlit("0");
        }
        "0"
    } else if d == 1 {
        proof {
            reveal_strlit("1");
        }
        "1"
    } else if d == 2 {
        proof {
            reveal_strlit("2");
        }
        "2"
    } else if d == 3 {
        proof {
            reveal_strlit("3");
        }
        "3"
    } else if d == 4 {
        proof {
            reveal_strlit("4");
        }
        "4"
    } else if d == 5 {
        proof {
            reveal_strlit("5");
        }
        "5"
    } else if d == 6 {
        proof {
            reveal_strlit("6");
        }
        "6"
    } else if d == 7 {
        proof {
            reveal_strlit("7");
        }
        "7"
    } else if d == 8 {
        proof {
            reveal_strlit("8");
        }
        "8"
    } else {
        proof {
            reveal_strlit("9");
        }
        "9"
    }
}

/// Appends the decimal text of `n` to `s`.
pub fn push_decimal(s: &mut String, n: usize)
    ensures
        final(s)@ == old(s)@ + decimal(n as nat),
    decreases n,
{
    if n >= 10 {
        push_decimal(s, n / 10);
    }
    s.append(digit_str(n % 10));
}

/// Different numbers have different decimal texts.
pub proof fn lemma_decimal_injective(a: nat, b: nat)
    requires
        decimal(a) == decimal(b),
    ensures
        a == b,
    decreases a,
{
    lemma_decimal_len(a);
    lemma_decimal_len(b);
    if a < 10 && b < 10 {
        assert(decimal(a)[0] == digit_char(a as int));
        assert(decimal(b)[0] == digit_char(b as int));
    } else if a >= 10 && b >= 10 {
        let da = decimal(a);
        let db = decimal(b);
        assert(da.drop_last() =~= decimal(a / 10));
        assert(db.drop_last() =~= decimal(b / 10));
        lemma_decimal_injective(a / 10, b / 10);
        assert(da.last() == digit_char((a % 10) as int));
        assert(db.last() == digit_char((b % 10) as int));
    }
}

/// A decimal text has one character for a number under ten, and more for
/// any other.
pub proof fn lemma_decimal_len(n: nat)
    ensures
        decimal(n).len() >= 1,
        n < 10 <==> decimal(n).len() == 1,
    decreases n,
{
    if n >= 10 {
        lemma_decimal_len(n / 10);
    }
}

/// The text "EVENT_".
pub open spec fn event_prefix() -> Seq<char> {
    seq!['E', 'V', 'E', 'N', 'T', '_']
}

/// The id of the event numbered `num`, sent from `origin` to `dest`:
/// `EVENT_{num}_{origin}->{dest}`.
pub open spec fn spec_event_id(num: nat, origin: Seq<char>, dest: Seq<char>) -> Seq<char> {
    event_prefix() + decimal(num) + (seq!['_'] + origin + seq!['-', '>'] + dest)
}

/// The id of the event numbered `num`, sent from `origin` to `dest`.
pub fn event_id(num: usize, origin: &str, dest: &str) -> (r: String)
    ensures
        r@ == spec_event_id(num as nat, origin@, dest@),
{
    proof {
        reveal_strlit("EVENT_");
        reveal_strlit("_");
        reveal_strlit("->");
    }
    let mut s = "EVENT_".to_owned();
    push_decimal(&mut s, num);
    s.append("_");
    s.append(origin);
    s.append("->");
    s.append(dest);
    assert(s@ =~= spec_event_id(num as nat, origin@, dest@));
    s
}

/// A decimal text holds no underscore.
pub proof fn lemma_decimal_has_no_underscore(n: nat)
    ensures
        forall|i: int| 0 <= i < decimal(n).len() ==> #[trigger] decimal(n)[i] != '_',
    decreases n,
{
    if n >= 10 {
        lemma_decimal_has_no_underscore(n / 10);
        let p = decimal(n / 10);
        assert forall|i: int| 0 <= i < decimal(n).len() implies #[trigger] decimal(n)[i] != '_' by {
            if i < p.len() {
                assert(decimal(n)[i] == p[i]);
            }
        }
    }
}

/// Events numbered differently get different ids, whoever sends them to
/// whomever: the number runs up to the first underscore after "EVENT_".
pub proof fn lemma_event_ids_distinct(
    a: nat,
    b: nat,
    origin_a: Seq<char>,
    dest_a: Seq<char>,
    origin_b: Seq<char>,
    dest_b: Seq<char>,
)
    requires
        a != b,
    ensures
        spec_event_id(a, origin_a, dest_a) != spec_event_id(b, origin_b, dest_b),
{
    let sa = spec_event_id(a, origin_a, dest_a);
    let sb = spec_event_id(b, origin_b, dest_b);
    let da = decimal(a);
    let db = decimal(b);
    let la = da.len() as int;
    let lb = db.len() as int;
    lemma_decimal_has_no_underscore(a);
    lemma_decimal_has_no_underscore(b);
    if sa == sb {
        assert(sa[6 + la] == '_');
        assert(sb[6 + lb] == '_');
        if la < lb {
            assert(sb[6 + la] == db[la]);
        } else if lb < la {
            assert(sa[6 + lb] == da[lb]);
        } else {
            assert(sa.subrange(6, 6 + la) =~= da);
            assert(sb.subrange(6, 6 + lb) =~= db);
            lemma_decimal_injective(a, b);
        }
    }
}

/// The address of the server at `ip` and `port`: `ws://{ip}:{port}`.
pub open spec fn spec_server_url(ip: Seq<char>, port: nat) -> Seq<char> {
    seq!['w', 's', ':', '/', '/'] + ip + seq![':'] + decimal(port)
}

/// The address of the server at `ip` and `port`.
pub fn server_url_text(ip: &str, port: usize) -> (r: String)
    ensures
        r@ == spec_server_url(ip@, port as nat),
{
    proof {
        reveal_strlit("ws://");
        reveal_strlit(":");
    }
    let mut s = "ws://".to_owned();
    s.append(ip);
    s.append(":");
    push_decimal(&mut s, port);
    assert(s@ =~= spec_server_url(ip@, port as nat));
    s
}

} // verus!
