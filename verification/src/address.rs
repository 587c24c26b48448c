//! What a bind address is made of: an IPv4 literal in dotted-quad notation
//! and a port that fits sixteen bits.

use vstd::prelude::*;
use crate::decimal::{all_digits, decimal, digits_value, is_digit};

verus! {

/// The largest port that can be bound.
pub const MAX_PORT: u32 = 65535;

/// The fields of `s`: the runs of characters between separators, in order.
/// A text without a separator is one field, and so is the empty text.
pub open spec fn fields(s: Seq<char>, separator: char) -> Seq<Seq<char>>
    decreases s.len(),
{
    if s.len() == 0 {
        seq![Seq::<char>::empty()]
    } else {
        let before = fields(s.drop_last(), separator);
        if s.last() == separator {
            before.push(Seq::<char>::empty())
        } else {
            before.drop_last().push(before.last().push(s.last()))
        }
    }
}

/// What every prefix of an octet is: at most three digits, without a
/// leading zero before another digit, worth at most 255.
pub open spec fn octet_start(s: Seq<char>) -> bool {
    &&& s.len() <= 3
    &&& all_digits(s)
    &&& s.len() > 1 ==> s[0] != '0'
    &&& digits_value(s) <= 255
}

/// Whether `s` writes one octet of an IPv4 literal: one to three decimal
/// digits, without a leading zero before another digit, worth at most 255.
pub open spec fn is_octet(s: Seq<char>) -> bool {
    s.len() >= 1 && octet_start(s)
}

/// What the fields of every prefix of an IPv4 literal are: at most four,
/// each but the last an octet, and the last the start of one.
pub open spec fn quad_start(parts: Seq<Seq<char>>) -> bool {
    &&& 1 <= parts.len() <= 4
    &&& forall|i: int| 0 <= i < parts.len() - 1 ==> is_octet(#[trigger] parts[i])
    &&& octet_start(parts.last())
}

/// Whether `s` is an IPv4 literal in dotted-quad notation: four octets with
/// a dot between each two, and nothing else.
pub open spec fn is_ipv4_literal(s: Seq<char>) -> bool {
    let parts = fields(s, '.');
    &&& parts.len() == 4
    &&& forall|i: int| 0 <= i < 4 ==> is_octet(#[trigger] parts[i])
}

/// The text that a socket address is read from: host, colon, port.
pub open spec fn socket_addr_text(host_ip: Seq<char>, port: u32) -> Seq<char> {
    host_ip + ":"@ + decimal(port as nat)
}

/// Whether `s` spells a socket address: an IPv4 literal, a colon, and a
/// port of at most sixteen bits in decimal notation.
pub open spec fn is_socket_addr_text(s: Seq<char>) -> bool {
    exists|host_ip: Seq<char>, port: u32|
        is_ipv4_literal(host_ip) && port <= MAX_PORT && s == #[trigger] socket_addr_text(
            host_ip,
            port,
        )
}

/// A text has at least one field.
proof fn lemma_fields_len(s: Seq<char>, separator: char)
    ensures
        fields(s, separator).len() >= 1,
    decreases s.len(),
{
    if s.len() > 0 {
        lemma_fields_len(s.drop_last(), separator);
    }
}

/// A separator opens a new field, and any other character goes to the end
/// of the last one.
proof fn lemma_fields_push(s: Seq<char>, separator: char, c: char)
    ensures
        fields(s, separator).len() >= 1,
        fields(s.push(c), separator) == if c == separator {
            fields(s, separator).push(Seq::<char>::empty())
        } else {
            fields(s, separator).drop_last().push(fields(s, separator).last().push(c))
        },
{
    lemma_fields_len(s, separator);
    assert(s.push(c).drop_last() =~= s);
}

/// A field that is no start of an octet does not become one by growing.
proof fn lemma_octet_start_lost(s: Seq<char>, c: char)
    requires
        !octet_start(s),
    ensures
        !octet_start(s.push(c)),
{
    let grown = s.push(c);
    assert(grown.drop_last() =~= s);
    if !all_digits(s) {
        let j = choose|j: int| 0 <= j < s.len() && !is_digit(#[trigger] s[j]);
        assert(grown[j] == s[j]);
    } else if s.len() > 1 && s[0] == '0' {
        assert(grown[0] == s[0]);
    }
}

/// Fields that are no start of an IPv4 literal do not become one when the
/// text grows.
proof fn lemma_quad_start_lost(s: Seq<char>, c: char)
    requires
        !quad_start(fields(s, '.')),
    ensures
        !quad_start(fields(s.push(c), '.')),
{
    let parts = fields(s, '.');
    let grown = fields(s.push(c), '.');
    lemma_fields_push(s, '.', c);
    if parts.len() <= 4 {
        if !octet_start(parts.last()) {
            if c == '.' {
                assert(grown[parts.len() - 1] == parts.last());
            } else {
                lemma_octet_start_lost(parts.last(), c);
            }
        } else {
            let i = choose|i: int| 0 <= i < parts.len() - 1 && !is_octet(#[trigger] parts[i]);
            assert(grown[i] == parts[i]);
        }
    }
}

/// A text with a prefix whose fields are no start of an IPv4 literal is no
/// IPv4 literal.
proof fn lemma_prefix_rules_out(s: Seq<char>, k: int)
    requires
        0 <= k <= s.len(),
        !quad_start(fields(s.take(k), '.')),
    ensures
        !is_ipv4_literal(s),
    decreases s.len() - k,
{
    if k == s.len() {
        assert(s.take(k) =~= s);
    } else {
        assert(s.take(k + 1) =~= s.take(k).push(s[k]));
        lemma_quad_start_lost(s.take(k), s[k]);
        lemma_prefix_rules_out(s, k + 1);
    }
}

/// Tells whether a text is an IPv4 literal in dotted-quad notation.
pub fn is_ipv4(text: &str) -> (valid: bool)
    ensures
        valid == is_ipv4_literal(text@),
{
    let mut dots: u32 = 0;
    let mut len: u32 = 0;
    let mut value: u32 = 0;
    let mut zero_first = false;
    assert(text@.take(0) =~= Seq::<char>::empty());
    for c in it: text.chars()
        invariant
            it.seq() == text@,
            quad_start(fields(text@.take(it.index()), '.')),
            fields(text@.take(it.index()), '.').len() == dots + 1,
            fields(text@.take(it.index()), '.').last().len() == len,
            digits_value(fields(text@.take(it.index()), '.').last()) == value,
            zero_first == (len >= 1 && fields(text@.take(it.index()), '.').last()[0] == '0'),
    {
        let ghost before = text@.take(it.index());
        let ghost after = text@.take(it.index() + 1);
        let ghost parts = fields(before, '.');
        let ghost field = parts.last();
        proof {
            assert(after =~= before.push(c));
            lemma_fields_push(before, '.', c);
        }
        if c == '.' {
            if len == 0 || dots == 3 {
                proof {
                    assert(fields(after, '.')[parts.len() - 1] == field);
                    lemma_prefix_rules_out(text@, it.index() + 1);
                }
                return false;
            }
            proof {
                let grown = fields(after, '.');
                assert forall|i: int| 0 <= i < grown.len() - 1 implies is_octet(
                    #[trigger] grown[i],
                ) by {
                    assert(grown[i] == parts[i]);
                }
            }
            dots = dots + 1;
            len = 0;
            value = 0;
            zero_first = false;
        } else {
            let ghost grown_field = field.push(c);
            proof {
                assert(grown_field.drop_last() =~= field);
                assert(fields(after, '.').last() == grown_field);
                assert(len >= 1 ==> grown_field[0] == field[0]);
            }
            if !('0' <= c && c <= '9') || len == 3 || zero_first {
                proof {
                    assert(!is_digit(c) ==> !is_digit(grown_field[grown_field.len() - 1]));
                    lemma_prefix_rules_out(text@, it.index() + 1);
                }
                return false;
            }
            let next: u32 = value * 10 + (c as u32 - 48);
            if next > 255 {
                proof {
                    lemma_prefix_rules_out(text@, it.index() + 1);
                }
                return false;
            }
            proof {
                let grown = fields(after, '.');
                assert forall|i: int| 0 <= i < grown.len() - 1 implies is_octet(
                    #[trigger] grown[i],
                ) by {
                    assert(grown[i] == parts[i]);
                }
                assert forall|j: int| 0 <= j < grown_field.len() implies is_digit(
                    #[trigger] grown_field[j],
                ) by {
                    if j < field.len() {
                        assert(grown_field[j] == field[j]);
                    }
                }
            }
            if len == 0 {
                zero_first = c == '0';
            }
            value = next;
            len = len + 1;
        }
    }
    assert(text@.take(text@.len() as int) =~= text@);
    dots == 3 && len >= 1
}

/// A host that is an IPv4 literal and a port of at most sixteen bits spell a
/// socket address.
pub proof fn law_host_and_port_spell_an_address(host_ip: Seq<char>, port: u32)
    requires
        is_ipv4_literal(host_ip),
        port <= MAX_PORT,
    ensures
        is_socket_addr_text(socket_addr_text(host_ip, port)),
{
}

} // verus!
