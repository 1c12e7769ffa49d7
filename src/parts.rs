//! The part-search commands' own logic: the distributors' URLs, paging,
//! credential choice, error reports and datasheet file names.

use vstd::prelude::*;

use crate::text::{opt_view, push_char};
use vstd::string::StringSliceAdditionalSpecFns;

verus! {

/// Bytes that percent-encoding leaves as they are: ASCII letters, digits
/// and `-`, `.`, `_`, `~`.
pub open spec fn is_unreserved(b: u8) -> bool {
    ||| 48 <= b <= 57
    ||| 65 <= b <= 90
    ||| 97 <= b <= 122
    ||| b == 45
    ||| b == 46
    ||| b == 95
    ||| b == 126
}

/// The upper-case hex digit for a value below 16.
pub open spec fn upper_hex_digit(n: u8) -> char {
    if n < 10 {
        (48 + n) as char
    } else {
        (55 + n) as char
    }
}

/// Percent-encoding of a byte string: unreserved bytes stay, every other
/// byte becomes `%` and two upper-case hex digits.
pub open spec fn percent_encoded(bytes: Seq<u8>) -> Seq<char>
    decreases bytes.len(),
{
    if bytes.len() == 0 {
        Seq::empty()
    } else {
        let b = bytes.last();
        percent_encoded(bytes.drop_last()) + if is_unreserved(b) {
            seq![b as char]
        } else {
            seq!['%', upper_hex_digit(b / 16), upper_hex_digit(b % 16)]
        }
    }
}

/// Relies on `urlencoding::encode`: every byte of the UTF-8 text is kept
/// when it is an ASCII letter, digit, `-`, `.`, `_` or `~`, and written as
/// `%XX` (upper-case hex) otherwise.
#[verifier::external_body]
fn url_encode(s: &str) -> (r: String)
    ensures
        r@ == percent_encoded(s.spec_bytes()),
{
    urlencoding::encode(s).into_owned()
}

/// The Mouser search API.
pub open spec fn mouser_api_base() -> Seq<char> {
    "https://api.mouser.com/api/v1"@
}

/// The URL of Mouser's keyword search.
pub fn mouser_keyword_url(api_key: &str) -> (r: String)
    ensures
        r@ == mouser_api_base() + "/search/keyword?apiKey="@ + api_key@,
{
    let mut url = "https://api.mouser.com/api/v1".to_owned();
    url.append("/search/keyword?apiKey=");
    url.append(api_key);
    url
}

/// The URL of Mouser's part-number search.
pub fn mouser_part_number_url(api_key: &str) -> (r: String)
    ensures
        r@ == mouser_api_base() + "/search/partnumber?apiKey="@ + api_key@,
{
    let mut url = "https://api.mouser.com/api/v1".to_owned();
    url.append("/search/partnumber?apiKey=");
    url.append(api_key);
    url
}

/// The DigiKey API, or its sandbox.
pub open spec fn digikey_api_base(sandbox: bool) -> Seq<char> {
    if sandbox {
        "https://sandbox-api.digikey.com"@
    } else {
        "https://api.digikey.com"@
    }
}

fn digikey_base(sandbox: bool) -> (r: String)
    ensures
        r@ == digikey_api_base(sandbox),
{
    if sandbox {
        "https://sandbox-api.digikey.com".to_owned()
    } else {
        "https://api.digikey.com".to_owned()
    }
}

/// The URL at which DigiKey hands out access tokens.
pub fn digikey_token_url(sandbox: bool) -> (r: String)
    ensures
        r@ == digikey_api_base(sandbox) + "/v1/oauth2/token"@,
{
    let mut url = digikey_base(sandbox);
    url.append("/v1/oauth2/token");
    url
}

/// The URL of DigiKey's keyword search.
pub fn digikey_keyword_url(sandbox: bool) -> (r: String)
    ensures
        r@ == digikey_api_base(sandbox) + "/products/v4/search/keyword"@,
{
    let mut url = digikey_base(sandbox);
    url.append("/products/v4/search/keyword");
    url
}

/// The URL of DigiKey's details for one part, with the part number
/// percent-encoded.
pub fn digikey_product_url(sandbox: bool, part_number: &str) -> (r: String)
    ensures
        r@ == digikey_api_base(sandbox) + "/products/v4/search/"@ + percent_encoded(part_number.spec_bytes())
            + "/productdetails"@,
{
    let mut url = digikey_base(sandbox);
    url.append("/products/v4/search/");
    let encoded = url_encode(part_number);
    url.append(encoded.as_str());
    url.append("/productdetails");
    url
}

/// Why a page request was refused.
#[derive(Debug, Clone, Copy, PartialEq, Eq, Structural)]
pub enum PageError {
    /// Pages are numbered from 1.
    ZeroPage,
}

/// The first record to ask for: a page number (from 1) takes precedence
/// over an offset (from 0); neither means the start.
pub fn starting_record(page: Option<usize>, offset: Option<usize>, limit: usize) -> (r: Result<usize, PageError>)
    requires
        page matches Some(p) ==> (p >= 1 ==> (p - 1) * limit <= usize::MAX),
    ensures
        match page {
            Some(p) => if p == 0 {
                r == Err::<usize, PageError>(PageError::ZeroPage)
            } else {
                r == Ok::<usize, PageError>(((p - 1) * limit) as usize)
            },
            None => r == Ok::<usize, PageError>(
                match offset {
                    Some(o) => o,
                    None => 0,
                },
            ),
        },
{
    match page {
        Some(p) => {
            if p == 0 {
                Err(PageError::ZeroPage)
            } else {
                Ok((p - 1) * limit)
            }
        },
        None => match offset {
            Some(o) => Ok(o),
            None => Ok(0),
        },
    }
}

/// The credential to use: the one given on the command line unless it is
/// empty, else the one from the environment.
pub fn pick_credential(provided: Option<String>, from_env: Option<String>) -> (r: Option<String>)
    ensures
        opt_view(r) == match provided {
            Some(p) => if p@.len() > 0 {
                Some(p@)
            } else {
                opt_view(from_env)
            },
            None => opt_view(from_env),
        },
{
    match provided {
        Some(p) => {
            if !p.as_str().is_empty() {
                Some(p)
            } else {
                from_env
            }
        },
        None => from_env,
    }
}

/// Characters that cannot stand in a file name on common platforms.
pub open spec fn is_path_unsafe(c: char) -> bool {
    c == '/' || c == '\\' || c == ':' || c == '*' || c == '?' || c == '"' || c == '<' || c == '>' || c == '|'
}

/// `s` with every unsafe character replaced by `_`.
pub open spec fn sanitized(s: Seq<char>) -> Seq<char> {
    s.map_values(|c: char| if is_path_unsafe(c) { '_' } else { c })
}

/// The file name for a downloaded datasheet: the manufacturer part number
/// (else the part number asked for), made safe, with a `.pdf` extension.
pub open spec fn datasheet_file_name_of(manufacturer_part_number: Option<Seq<char>>, part_number: Seq<char>) -> Seq<char> {
    sanitized(
        match manufacturer_part_number {
            Some(m) => m,
            None => part_number,
        },
    ) + ".pdf"@
}

/// Appends `s` to `out` with every unsafe character replaced by `_`.
fn push_sanitized(out: &mut String, s: &str)
    ensures
        final(out)@ == old(out)@ + sanitized(s@),
{
    let n = s.unicode_len();
    let ghost start = out@;
    let mut i: usize = 0;
    while i < n
        invariant
            n == s@.len(),
            i <= n,
            out@ == start + sanitized(s@.take(i as int)),
        decreases n - i,
    {
        let c = s.get_char(i);
        let safe = if c == '/' || c == '\\' || c == ':' || c == '*' || c == '?' || c == '"' || c == '<' || c == '>'
            || c == '|' {
            '_'
        } else {
            c
        };
        push_char(out, safe);
        assert(sanitized(s@.take(i + 1)) =~= sanitized(s@.take(i as int)).push(safe));
        i = i + 1;
    }
    assert(s@.take(n as int) =~= s@);
}

/// The file name for a downloaded datasheet.
pub fn datasheet_file_name(manufacturer_part_number: Option<&str>, part_number: &str) -> (r: String)
    ensures
        r@ == datasheet_file_name_of(
            match manufacturer_part_number {
                Some(m) => Some(m@),
                None => None,
            },
            part_number@,
        ),
{
    let mut name = String::new();
    match manufacturer_part_number {
        Some(m) => push_sanitized(&mut name, m),
        None => push_sanitized(&mut name, part_number),
    }
    name.append(".pdf");
    name
}

/// The messages that are present, in order.
pub open spec fn present(messages: Seq<Option<Seq<char>>>) -> Seq<Seq<char>>
    decreases messages.len(),
{
    if messages.len() == 0 {
        Seq::empty()
    } else {
        let rest = present(messages.drop_last());
        match messages.last() {
            Some(m) => rest.push(m),
            None => rest,
        }
    }
}

/// The parts written one after another with `sep` between them.
pub open spec fn joined(parts: Seq<Seq<char>>, sep: Seq<char>) -> Seq<char>
    decreases parts.len(),
{
    if parts.len() == 0 {
        Seq::empty()
    } else if parts.len() == 1 {
        parts[0]
    } else {
        joined(parts.drop_last(), sep) + sep + parts.last()
    }
}

/// The report for the errors of a search answer: `None` where none of them
/// carries a message, else the messages joined by commas.
pub fn api_error_message(messages: &Vec<Option<String>>) -> (r: Option<String>)
    ensures
        ({
            let found = present(messages@.map_values(|m: Option<String>| opt_view(m)));
            &&& found.len() == 0 ==> r is None
            &&& found.len() > 0 ==> (r matches Some(s) && s@ == "API errors: "@ + joined(found, ", "@))
        }),
{
    let ghost views = messages@.map_values(|m: Option<String>| opt_view(m));
    let mut body = String::new();
    let mut count: usize = 0;
    let mut i: usize = 0;
    while i < messages.len()
        invariant
            i <= messages@.len(),
            views == messages@.map_values(|m: Option<String>| opt_view(m)),
            count == present(views.take(i as int)).len(),
            count <= i,
            body@ == joined(present(views.take(i as int)), ", "@),
        decreases messages@.len() - i,
    {
        let ghost before = present(views.take(i as int));
        assert(views.take(i + 1).drop_last() =~= views.take(i as int));
        assert(views.take(i + 1).last() == opt_view(messages@[i as int]));
        match &messages[i] {
            Some(m) => {
                if count > 0 {
                    body.append(", ");
                }
                body.append(m.as_str());
                count = count + 1;
                assert(present(views.take(i + 1)) == before.push(m@));
                assert(before.push(m@).drop_last() =~= before);
            },
            None => {},
        }
        i = i + 1;
    }
    assert(views.take(i as int) =~= views);
    if count == 0 {
        None
    } else {
        let mut report = "API errors: ".to_owned();
        report.append(body.as_str());
        Some(report)
    }
}

/// The decimal digits of a natural number.
pub open spec fn decimal_digits(n: nat) -> Seq<char>
    decreases n,
{
    if n < 10 {
        seq![(48 + n) as char]
    } else {
        decimal_digits(n / 10).push((48 + n % 10) as char)
    }
}

/// The decimal form of an integer, with a leading `-` when negative.
pub open spec fn decimal(n: int) -> Seq<char> {
    if n < 0 {
        seq!['-'] + decimal_digits((-n) as nat)
    } else {
        decimal_digits(n as nat)
    }
}

/// Appends the decimal digits of `n` to `out`.
fn push_digits(out: &mut String, n: u32)
    ensures
        final(out)@ == old(out)@ + decimal_digits(n as nat),
    decreases n,
{
    if n >= 10 {
        push_digits(out, n / 10);
    }
    let d = (n % 10) as u8;
    push_char(out, (48 + d) as char);
    assert(decimal_digits(n as nat) =~= if n < 10 {
        seq![(48 + n % 10) as char]
    } else {
        decimal_digits((n / 10) as nat).push((48 + n % 10) as char)
    });
}

/// The decimal form of `n`, as `i32`'s `Display` writes it.
fn int_text(n: i32) -> (r: String)
    ensures
        r@ == decimal(n as int),
{
    let mut out = String::new();
    if n < 0 {
        push_char(&mut out, '-');
        push_digits(&mut out, (0 - n as i64) as u32);
    } else {
        push_digits(&mut out, n as u32);
    }
    out
}

/// What the summary of a Mouser search hit shows.
#[derive(Debug)]
pub struct PartFacts {
    pub manufacturer_part_number: Option<String>,
    pub manufacturer: Option<String>,
    pub mouser_part_number: Option<String>,
    pub description: Option<String>,
    pub stock: Option<String>,
    /// The first price break: its quantity, price and currency, as far as given.
    pub first_price: Option<(Option<i32>, Option<String>, Option<String>)>,
    pub datasheet_url: Option<String>,
}

/// The lines of a part summary: the part number (with its manufacturer, or
/// else the Mouser number), then the indented description, stock, first
/// price (in USD unless another currency is given) and datasheet mark, each
/// where there is one.
pub open spec fn summary_lines(p: PartFacts) -> Seq<Seq<char>> {
    let head: Seq<Seq<char>> = match p.manufacturer_part_number {
        Some(mpn) => match p.manufacturer {
            Some(m) => seq![mpn@ + " ("@ + m@ + ")"@],
            None => seq![mpn@],
        },
        None => match p.mouser_part_number {
            Some(pn) => seq!["Mouser: "@ + pn@],
            None => Seq::empty(),
        },
    };
    let desc: Seq<Seq<char>> = match p.description {
        Some(d) => seq!["   "@ + d@],
        None => Seq::empty(),
    };
    let stock: Seq<Seq<char>> = match p.stock {
        Some(st) => seq!["   Stock: "@ + st@],
        None => Seq::empty(),
    };
    let price: Seq<Seq<char>> = match p.first_price {
        Some((Some(q), Some(pr), cur)) => seq![
            "   Price: "@ + pr@ + " "@ + match cur {
                Some(c) => c@,
                None => "USD"@,
            } + " (qty "@ + decimal(q as int) + "+)"@,
        ],
        _ => Seq::empty(),
    };
    let sheet: Seq<Seq<char>> = match p.datasheet_url {
        Some(u) => if u@.len() > 0 {
            seq!["   Datasheet: Available"@]
        } else {
            Seq::empty()
        },
        None => Seq::empty(),
    };
    head + desc + stock + price + sheet
}

/// The strings' views.
pub open spec fn views(lines: Seq<String>) -> Seq<Seq<char>> {
    lines.map_values(|l: String| l@)
}

/// Joins `lines` with `sep` between them.
fn join_lines(lines: &Vec<String>, sep: &str) -> (r: String)
    ensures
        r@ == joined(views(lines@), sep@),
{
    let mut out = String::new();
    let mut i: usize = 0;
    while i < lines.len()
        invariant
            i <= lines@.len(),
            out@ == joined(views(lines@.take(i as int)), sep@),
        decreases lines@.len() - i,
    {
        assert(views(lines@.take(i + 1)).drop_last() =~= views(lines@.take(i as int)));
        assert(views(lines@.take(i + 1)).last() == lines@[i as int]@);
        if i > 0 {
            out.append(sep);
        }
        out.append(lines[i].as_str());
        i = i + 1;
    }
    assert(lines@.take(i as int) =~= lines@);
    out
}

/// Adds `line` to `lines`.
fn push_line(lines: &mut Vec<String>, line: String)
    ensures
        views(final(lines)@) == views(old(lines)@).push(line@),
{
    lines.push(line);
    assert(views(lines@) =~= views(old(lines)@).push(line@));
}

/// The summary of a Mouser search hit, one line per fact.
pub fn part_summary(p: &PartFacts) -> (r: String)
    ensures
        r@ == joined(summary_lines(*p), "\n"@),
{
    let mut lines: Vec<String> = Vec::new();
    match &p.manufacturer_part_number {
        Some(mpn) => match &p.manufacturer {
            Some(m) => {
                let mut line = mpn.clone();
                line.append(" (");
                line.append(m.as_str());
                line.append(")");
                push_line(&mut lines, line);
            },
            None => push_line(&mut lines, mpn.clone()),
        },
        None => match &p.mouser_part_number {
            Some(pn) => {
                let mut line = "Mouser: ".to_owned();
                line.append(pn.as_str());
                push_line(&mut lines, line);
            },
            None => {},
        },
    }
    if let Some(d) = &p.description {
        let mut line = "   ".to_owned();
        line.append(d.as_str());
        push_line(&mut lines, line);
    }
    if let Some(st) = &p.stock {
        let mut line = "   Stock: ".to_owned();
        line.append(st.as_str());
        push_line(&mut lines, line);
    }
    if let Some((Some(q), Some(pr), cur)) = &p.first_price {
        let mut line = "   Price: ".to_owned();
        line.append(pr.as_str());
        line.append(" ");
        match cur {
            Some(c) => line.append(c.as_str()),
            None => line.append("USD"),
        }
        line.append(" (qty ");
        let qty = int_text(*q);
        line.append(qty.as_str());
        line.append("+)");
        push_line(&mut lines, line);
    }
    if let Some(u) = &p.datasheet_url {
        if !u.as_str().is_empty() {
            push_line(&mut lines, "   Datasheet: Available".to_owned());
        }
    }
    proof {
        let sl = summary_lines(*p);
        assert(views(lines@) =~= sl);
    }
    join_lines(&lines, "\n")
}

} // verus!
