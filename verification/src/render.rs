//! Rendering of results as text: status lines, header blocks, and the
//! two-column scan table.

use vstd::prelude::*;
use vstd::string::*;

use crate::catalog::TransportProtocol;
use crate::catalog::service_name;
use crate::catalog::service_name_spec;

verus! {

/// The character of one decimal digit.
pub open spec fn digit_char(d: int) -> char
    recommends
        0 <= d < 10,
{
    if d == 0 {
        '0'
    } else if d == 1 {
        '1'
    } else if d == 2 {
        '2'
    } else if d == 3 {
        '3'
    } else if d == 4 {
        '4'
    } else if d == 5 {
        '5'
    } else if d == 6 {
        '6'
    } else if d == 7 {
        '7'
    } else if d == 8 {
        '8'
    } else {
        '9'
    }
}

/// The decimal digits of a number, most significant first, without
/// leading zeros (the number 0 is the single digit `0`).
pub open spec fn dec_digits(n: int) -> Seq<char>
    recommends
        n >= 0,
    decreases n,
{
    if n < 10 {
        seq![digit_char(n)]
    } else {
        dec_digits(n / 10).push(digit_char(n % 10))
    }
}

fn digit_str(d: u16) -> (r: &'static str)
    requires
        d < 10,
    ensures
        r@ == seq![digit_char(d as int)],
{
    match d {
        0 => {
            proof {
                reveal_strlit("0");
                assert("0"@ =~= seq!['0']);
            }
            "0"
        },
        1 => {
            proof {
                reveal_strlit("1");
                assert("1"@ =~= seq!['1']);
            }
            "1"
        },
        2 => {
            proof {
                reveal_strlit("2");
                assert("2"@ =~= seq!['2']);
            }
            "2"
        },
        3 => {
            proof {
                reveal_strlit("3");
                assert("3"@ =~= seq!['3']);
            }
            "3"
        },
        4 => {
            proof {
                reveal_strlit("4");
                assert("4"@ =~= seq!['4']);
            }
            "4"
        },
        5 => {
            proof {
                reveal_strlit("5");
                assert("5"@ =~= seq!['5']);
            }
            "5"
        },
        6 => {
            proof {
                reveal_strlit("6");
                assert("6"@ =~= seq!['6']);
            }
            "6"
        },
        7 => {
            proof {
                reveal_strlit("7");
                assert("7"@ =~= seq!['7']);
            }
            "7"
        },
        8 => {
            proof {
                reveal_strlit("8");
                assert("8"@ =~= seq!['8']);
            }
            "8"
        },
        _ => {
            proof {
                reveal_strlit("9");
                assert("9"@ =~= seq!['9']);
            }
            "9"
        },
    }
}

/// Renders a number as its decimal digits.
pub fn u16_to_string(n: u16) -> (r: String)
    ensures
        r@ == dec_digits(n as int),
    decreases n,
{
    if n < 10 {
        String::from_str(digit_str(n))
    } else {
        let mut s = u16_to_string(n / 10);
        s.append(digit_str(n % 10));
        proof {
            assert(s@ =~= dec_digits(n as int));
        }
        s
    }
}

/// The status line of a result: the decimal status code, then the
/// reason phrase when one is known.
pub open spec fn status_line_spec(code: u16, reason: Seq<char>) -> Seq<char> {
    if reason.len() == 0 {
        dec_digits(code as int)
    } else {
        dec_digits(code as int) + " "@ + reason
    }
}

/// Renders a response status as text, `200 OK` style: the decimal
/// code, and the reason phrase when one is known.
pub fn format_status(code: u16, reason: &str) -> (r: String)
    ensures
        r@ == status_line_spec(code, reason@),
{
    let mut s = u16_to_string(code);
    if reason.is_empty() {
        s
    } else {
        s.append(" ");
        s.append(reason);
        proof {
            assert(s@ =~= dec_digits(code as int) + " "@ + reason@);
        }
        s
    }
}

/// The view of a header list: each name and value as characters.
pub open spec fn header_pairs_view(hs: Seq<(String, String)>) -> Seq<(Seq<char>, Seq<char>)> {
    hs.map_values(|p: (String, String)| (p.0@, p.1@))
}

/// One line per header: `name: value`, newline-terminated.
pub open spec fn header_lines_spec(hs: Seq<(Seq<char>, Seq<char>)>) -> Seq<char>
    decreases hs.len(),
{
    if hs.len() == 0 {
        Seq::<char>::empty()
    } else {
        header_lines_spec(hs.drop_last()) + hs.last().0 + ": "@ + hs.last().1 + "\n"@
    }
}

/// The formatted header block of a result: a title line, then one line
/// per header.
pub open spec fn header_block_spec(hs: Seq<(String, String)>) -> Seq<char> {
    "Headers:\n"@ + header_lines_spec(header_pairs_view(hs))
}

/// Renders the header block of a result from (name, value) pairs.
pub fn format_headers(headers: &Vec<(String, String)>) -> (r: String)
    ensures
        r@ == header_block_spec(headers@),
{
    let mut r = String::from_str("Headers:\n");
    let mut i: usize = 0;
    while i < headers.len()
        invariant
            0 <= i <= headers@.len(),
            r@ == "Headers:\n"@ + header_lines_spec(header_pairs_view(headers@.subrange(0, i as int))),
        decreases headers@.len() - i,
    {
        let ghost prefix = header_pairs_view(headers@.subrange(0, i as int));
        r.append(headers[i].0.as_str());
        r.append(": ");
        r.append(headers[i].1.as_str());
        r.append("\n");
        proof {
            let next = header_pairs_view(headers@.subrange(0, i + 1));
            assert(next.drop_last() =~= prefix);
            assert(next.last() == (headers@[i as int].0@, headers@[i as int].1@));
            assert(header_lines_spec(next) == header_lines_spec(prefix) + next.last().0 + ": "@
                + next.last().1 + "\n"@);
            assert(r@ =~= "Headers:\n"@ + header_lines_spec(next));
        }
        i = i + 1;
    }
    proof {
        assert(headers@.subrange(0, headers@.len() as int) =~= headers@);
    }
    r
}

/// One row of the scan table: the port, then the service name the
/// catalog gives it (empty when the catalog has no entry),
/// newline-terminated.
pub open spec fn scan_row_spec(protocol: TransportProtocol, port: u16) -> Seq<char> {
    dec_digits(port as int) + ", "@ + service_name_spec(protocol, port) + "\n"@
}

/// The whole scan table: one row per open port, in the given order.
pub open spec fn scan_table_spec(protocol: TransportProtocol, ports: Seq<u16>) -> Seq<char>
    decreases ports.len(),
{
    if ports.len() == 0 {
        Seq::<char>::empty()
    } else {
        scan_table_spec(protocol, ports.drop_last()) + scan_row_spec(protocol, ports.last())
    }
}

/// Renders one row of the two-column scan table: port, then the
/// service name from the catalog.
pub fn scan_row(protocol: TransportProtocol, port: u16) -> (r: String)
    ensures
        r@ == scan_row_spec(protocol, port),
{
    let mut s = u16_to_string(port);
    s.append(", ");
    s.append(service_name(protocol, port));
    s.append("\n");
    proof {
        assert(s@ =~= scan_row_spec(protocol, port));
    }
    s
}

/// Renders the scan's result table: one row per responding port, in
/// the order given — the resolved-port order, not completion order.
pub fn scan_table(protocol: TransportProtocol, ports: &Vec<u16>) -> (r: String)
    ensures
        r@ == scan_table_spec(protocol, ports@),
{
    let mut r = String::new();
    let mut i: usize = 0;
    while i < ports.len()
        invariant
            0 <= i <= ports@.len(),
            r@ == scan_table_spec(protocol, ports@.subrange(0, i as int)),
        decreases ports@.len() - i,
    {
        let row = scan_row(protocol, ports[i]);
        r.append(row.as_str());
        proof {
            assert(ports@.subrange(0, i + 1).drop_last() =~= ports@.subrange(0, i as int));
            assert(ports@.subrange(0, i + 1).last() == ports@[i as int]);
            assert(r@ =~= scan_table_spec(protocol, ports@.subrange(0, i + 1)));
        }
        i = i + 1;
    }
    proof {
        assert(ports@.subrange(0, ports@.len() as int) =~= ports@);
    }
    r
}

} // verus!
