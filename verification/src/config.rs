//! Where the client finds its server, and the settings it keeps between runs.
use crate::number::{decimal_digits, decimal_u64, parse_u16, parse_u16_spec};
use crate::text::{
    chars_of, has_prefix, lemma_leading_run, lemma_runs_bounded, lemma_trimmed_drop_white_end,
    lemma_trimmed_len, leading_run, strip_prefix,
    trim, trim_end_matches, trim_end_spec, trimmed, in_class, CharClass,
};
use vstd::prelude::*;

verus! {

/// The address of the server on this machine at `port`.
pub open spec fn local_url(port: u16) -> Seq<char> {
    "http://localhost:"@ + decimal_digits(port as nat)
}

/// Whether a text is an `http://` or `https://` address.
pub open spec fn is_http_url(url: Seq<char>) -> bool {
    has_prefix(url, "http://"@) || has_prefix(url, "https://"@)
}

/// The server address an `ONIX_SERVER_URL` value gives: the value trimmed
/// and without trailing `/`, if it is an http(s) address.
pub open spec fn url_setting(value: Seq<char>) -> Option<Seq<char>> {
    let url = trim_end_spec(trimmed(value), CharClass::Only('/'));
    if is_http_url(url) {
        Some(url)
    } else {
        None
    }
}

/// The port an `ONIX_PORT` value gives.
pub open spec fn port_setting(value: Seq<char>) -> Option<u16> {
    parse_u16_spec(trimmed(value))
}

/// The three ways a line of `onix-config.cmd` can set the port.
pub open spec fn quoted_set_prefix() -> Seq<char> {
    "set \"ONIX_PORT="@
}

pub open spec fn set_prefix() -> Seq<char> {
    "set ONIX_PORT="@
}

pub open spec fn plain_prefix() -> Seq<char> {
    "ONIX_PORT="@
}

/// The port value a configuration line assigns, before it is parsed: after
/// `set "ONIX_PORT=` (without the closing quotes), `set ONIX_PORT=` or
/// `ONIX_PORT=` at the start of the trimmed line.
pub open spec fn port_text_in_line(line: Seq<char>) -> Option<Seq<char>> {
    let l = trimmed(line);
    if has_prefix(l, quoted_set_prefix()) {
        Some(trim_end_spec(l.skip(quoted_set_prefix().len() as int), CharClass::Only('"')))
    } else if has_prefix(l, set_prefix()) {
        Some(l.skip(set_prefix().len() as int))
    } else if has_prefix(l, plain_prefix()) {
        Some(l.skip(plain_prefix().len() as int))
    } else {
        None
    }
}

/// The port a configuration line sets, if it sets a valid one.
pub open spec fn port_in_line(line: Seq<char>) -> Option<u16> {
    match port_text_in_line(line) {
        Some(v) => parse_u16_spec(trimmed(v)),
        None => None,
    }
}

/// The port of the first line of a configuration text that sets a valid
/// one (lines end at `\n`).
pub open spec fn port_in_text(text: Seq<char>) -> Option<u16>
    decreases text.len(),
{
    let n: nat = leading_run(text, CharClass::AnyBut('\n'));
    match port_in_line(text.take(n as int)) {
        Some(p) => Some(p),
        None => if n < text.len() {
            proof {
                lemma_runs_bounded(text, CharClass::AnyBut('\n'));
            }
            port_in_text(text.skip((n + 1) as int))
        } else {
            None
        },
    }
}

/// The lines of a text as `str::lines` yields them: the text split at
/// `\n`, a `\r` just before a `\n` dropped, and no empty line after a final
/// `\n`.
pub open spec fn text_lines(text: Seq<char>) -> Seq<Seq<char>>
    decreases text.len(),
{
    if text.len() == 0 {
        Seq::empty()
    } else {
        let n: nat = leading_run(text, CharClass::AnyBut('\n'));
        if n < text.len() {
            let line = text.take(n as int);
            proof {
                lemma_runs_bounded(text, CharClass::AnyBut('\n'));
            }
            seq![
                if line.len() > 0 && line.last() == '\r' {
                    line.drop_last()
                } else {
                    line
                },
            ] + text_lines(text.skip((n + 1) as int))
        } else {
            seq![text]
        }
    }
}

/// The port of the first of these lines that sets a valid one.
pub open spec fn first_port(lines: Seq<Seq<char>>) -> Option<u16>
    decreases lines.len(),
{
    if lines.len() == 0 {
        None
    } else {
        match port_in_line(lines[0]) {
            Some(p) => Some(p),
            None => first_port(lines.drop_first()),
        }
    }
}

/// An empty line sets no port.
proof fn lemma_empty_line_sets_no_port()
    ensures
        port_in_line(Seq::<char>::empty()) is None,
{
    reveal_strlit("set \"ONIX_PORT=");
    reveal_strlit("set ONIX_PORT=");
    reveal_strlit("ONIX_PORT=");
    lemma_trimmed_len(Seq::<char>::empty());
}

/// Reading a configuration text line by line, as `str::lines` splits it,
/// finds the same port as `port_from_config`: the port of the first line
/// that sets a valid one.
pub proof fn lemma_port_in_text_by_lines(text: Seq<char>)
    ensures
        port_in_text(text) == first_port(text_lines(text)),
    decreases text.len(),
{
    let n: nat = leading_run(text, CharClass::AnyBut('\n'));
    lemma_runs_bounded(text, CharClass::AnyBut('\n'));
    if text.len() == 0 {
        lemma_empty_line_sets_no_port();
        assert(text.take(0) =~= Seq::<char>::empty());
    } else if n < text.len() {
        let line0 = text.take(n as int);
        let line = if line0.len() > 0 && line0.last() == '\r' {
            line0.drop_last()
        } else {
            line0
        };
        if line0.len() > 0 && line0.last() == '\r' {
            lemma_trimmed_drop_white_end(line0);
        }
        assert(port_in_line(line) == port_in_line(line0));
        lemma_port_in_text_by_lines(text.skip((n + 1) as int));
        let lines = text_lines(text);
        assert(lines[0] == line);
        assert(lines.drop_first() =~= text_lines(text.skip((n + 1) as int)));
    } else {
        assert(text.take(n as int) =~= text);
        let lines = text_lines(text);
        assert(lines.drop_first() =~= Seq::<Seq<char>>::empty());
        assert(first_port(lines.drop_first()) is None);
        assert(lines[0] == text);
    }
}

/// The port of the first configuration text that sets one.
pub open spec fn port_in_configs(configs: Seq<String>) -> Option<u16>
    decreases configs.len(),
{
    if configs.len() == 0 {
        None
    } else {
        match port_in_text(configs[0]@) {
            Some(p) => Some(p),
            None => port_in_configs(configs.drop_first()),
        }
    }
}

/// The server address: `ONIX_SERVER_URL` when it names an http(s) address;
/// else the local server at `ONIX_PORT` when that is a valid port; else at
/// the port the first configuration file sets; else at port 8080.
pub open spec fn server_url_spec(
    env_url: Option<String>,
    env_port: Option<String>,
    configs: Seq<String>,
) -> Seq<char> {
    if env_url is Some && url_setting(env_url->Some_0@) is Some {
        url_setting(env_url->Some_0@)->Some_0
    } else if env_port is Some && port_setting(env_port->Some_0@) is Some {
        local_url(port_setting(env_port->Some_0@)->Some_0)
    } else if port_in_configs(configs) is Some {
        local_url(port_in_configs(configs)->Some_0)
    } else {
        local_url(8080)
    }
}

/// The first configuration text that sets a valid port decides: when the
/// texts before it set none, the port found is its port, whatever the
/// texts after it set, and without a usable `ONIX_SERVER_URL` or
/// `ONIX_PORT` the server is the local one at that port.
pub proof fn lemma_first_config_decides(
    configs: Seq<String>,
    i: int,
    env_url: Option<String>,
    env_port: Option<String>,
)
    requires
        0 <= i < configs.len(),
        port_in_text(configs[i]@) is Some,
        forall|j: int| 0 <= j < i ==> (#[trigger] port_in_text(configs[j]@)) is None,
        env_url is None || url_setting(env_url->Some_0@) is None,
        env_port is None || port_setting(env_port->Some_0@) is None,
    ensures
        port_in_configs(configs) == port_in_text(configs[i]@),
        server_url_spec(env_url, env_port, configs) == local_url(
            port_in_text(configs[i]@)->Some_0,
        ),
    decreases i,
{
    if i > 0 {
        let rest = configs.drop_first();
        assert(port_in_text(configs[0]@) is None);
        assert forall|j: int| 0 <= j < i - 1 implies (#[trigger] port_in_text(rest[j]@)) is None by {
            assert(rest[j] == configs[j + 1]);
            assert(port_in_text(configs[j + 1]@) is None);
        }
        assert(rest[i - 1] == configs[i]);
        lemma_first_config_decides(rest, i - 1, env_url, env_port);
    }
}

/// The server address an `ONIX_SERVER_URL` value gives, if any.
pub fn url_from_setting(value: &str) -> (r: Option<String>)
    ensures
        r is Some <==> url_setting(value@) is Some,
        r matches Some(u) ==> u@ == url_setting(value@)->Some_0,
{
    let url = trim_end_matches(trim(value), '/');
    proof {
        reveal_strlit("http://");
        reveal_strlit("https://");
    }
    let is_http = crate::text::starts_with(url, "http://") || crate::text::starts_with(
        url,
        "https://",
    );
    if is_http {
        Some(url.to_owned())
    } else {
        None
    }
}

/// The port an `ONIX_PORT` value gives, if any.
pub fn port_from_setting(value: &str) -> (r: Option<u16>)
    ensures
        r == port_setting(value@),
{
    parse_u16(trim(value))
}

/// The address of the server on this machine at `port`.
pub fn local_server_url(port: u16) -> (r: String)
    ensures
        r@ == local_url(port),
{
    let mut r = String::from_str("http://localhost:");
    let digits = decimal_u64(port as u64);
    r.append(digits.as_str());
    r
}

/// The port one configuration line sets, if any (`read_onix_port` on one
/// line).
pub fn port_from_line(line: &str) -> (r: Option<u16>)
    ensures
        r == port_in_line(line@),
{
    proof {
        reveal_strlit("set \"ONIX_PORT=");
        reveal_strlit("set ONIX_PORT=");
        reveal_strlit("ONIX_PORT=");
    }
    let l = trim(line);
    let value = match strip_prefix(l, "set \"ONIX_PORT=") {
        Some(v) => trim_end_matches(v, '"'),
        None => match strip_prefix(l, "set ONIX_PORT=") {
            Some(v) => v,
            None => match strip_prefix(l, "ONIX_PORT=") {
                Some(v) => v,
                None => {
                    return None;
                },
            },
        },
    };
    parse_u16(trim(value))
}

/// The port the first line of a configuration text that sets a valid one
/// gives (`read_onix_port` once the file is read).
pub fn port_from_config(text: &str) -> (r: Option<u16>)
    ensures
        r == port_in_text(text@),
{
    let v = chars_of(text);
    let mut pos: usize = 0;
    proof {
        assert(text@.skip(0) =~= text@);
    }
    while pos <= v.len()
        invariant
            v@ == text@,
            pos <= v.len(),
            port_in_text(text@) == port_in_text(text@.skip(pos as int)),
        decreases v.len() + 1 - pos,
    {
        let mut j: usize = pos;
        while j < v.len() && v[j] != '\n'
            invariant
                v@ == text@,
                pos <= j <= v.len(),
                forall|k: int| pos <= k < j ==> v@[k] != '\n',
            decreases v.len() - j,
        {
            j = j + 1;
        }
        let ghost rest = text@.skip(pos as int);
        proof {
            assert forall|k: int| 0 <= k < j - pos implies in_class(
                #[trigger] rest[k],
                CharClass::AnyBut('\n'),
            ) by {
                assert(rest[k] == v@[pos + k]);
            }
            if j < v.len() {
                assert(rest[j - pos] == v@[j as int]);
            }
            lemma_leading_run(rest, CharClass::AnyBut('\n'), j - pos);
            assert(rest.take(j - pos) =~= text@.subrange(pos as int, j as int));
        }
        let line = text.substring_char(pos, j);
        match port_from_line(line) {
            Some(p) => {
                return Some(p);
            },
            None => {},
        }
        if j == v.len() {
            return None;
        }
        proof {
            assert(rest.skip(j - pos + 1) =~= text@.skip(j + 1));
        }
        pos = j + 1;
    }
    None
}

/// The port of the first configuration text that sets one.
pub fn port_from_configs(configs: &Vec<String>) -> (r: Option<u16>)
    ensures
        r == port_in_configs(configs@),
{
    let mut i: usize = 0;
    proof {
        assert(configs@.skip(0) =~= configs@);
    }
    while i < configs.len()
        invariant
            i <= configs.len(),
            port_in_configs(configs@) == port_in_configs(configs@.skip(i as int)),
        decreases configs.len() - i,
    {
        let ghost rest = configs@.skip(i as int);
        proof {
            assert(rest[0] == configs@[i as int]);
            assert(rest.drop_first() =~= configs@.skip(i + 1));
        }
        match port_from_config(configs[i].as_str()) {
            Some(p) => {
                return Some(p);
            },
            None => {},
        }
        i = i + 1;
    }
    proof {
        assert(configs@.skip(i as int) =~= Seq::<String>::empty());
    }
    None
}

/// The server the client talks to (`detect_server_url` once the
/// environment and the configuration files next to the program and in the
/// working directory are read; `configs` are the texts of those files that
/// could be read, in the order they are looked at).
pub fn server_url(env_url: Option<String>, env_port: Option<String>, configs: &Vec<String>) -> (r:
    String)
    ensures
        r@ == server_url_spec(env_url, env_port, configs@),
        is_http_url(r@),
{
    proof {
        reveal_strlit("http://localhost:");
        reveal_strlit("http://");
        assert(("http://localhost:"@).take(7) =~= "http://"@);
    }
    if let Some(value) = &env_url {
        if let Some(url) = url_from_setting(value.as_str()) {
            return url;
        }
    }
    if let Some(value) = &env_port {
        if let Some(port) = port_from_setting(value.as_str()) {
            let r = local_server_url(port);
            proof {
                assert(r@.take(7) =~= "http://"@);
            }
            return r;
        }
    }
    let port: u16 = match port_from_configs(configs) {
        Some(p) => p,
        None => 8080,
    };
    let r = local_server_url(port);
    proof {
        assert(r@.take(7) =~= "http://"@);
    }
    r
}

/// A configuration file that sets `ONIX_PORT=<port>` on its only line is
/// read back as that port.
pub proof fn lemma_config_reads_port(port: u16)
    ensures
        port_in_text(plain_prefix() + decimal_digits(port as nat)) == Some(port),
{
    reveal_strlit("ONIX_PORT=");
    reveal_strlit("set \"ONIX_PORT=");
    reveal_strlit("set ONIX_PORT=");
    let digits = decimal_digits(port as nat);
    let text = plain_prefix() + digits;
    crate::number::lemma_decimal_digits_value(port as nat);
    crate::number::lemma_port_round_trip(port);
    assert(text[0] == 'O');
    assert(text.last() == digits.last());
    assert(crate::number::is_ascii_digit(digits[digits.len() - 1]));
    crate::text::lemma_trimmed_unchanged(text);
    crate::text::lemma_trimmed_unchanged(digits);
    if quoted_set_prefix().len() <= text.len() {
        assert(text.take(quoted_set_prefix().len() as int)[0] != quoted_set_prefix()[0]);
    }
    if set_prefix().len() <= text.len() {
        assert(text.take(set_prefix().len() as int)[0] != set_prefix()[0]);
    }
    assert(text.take(plain_prefix().len() as int) =~= plain_prefix());
    assert(text.skip(plain_prefix().len() as int) =~= digits);
    assert forall|k: int| 0 <= k < text.len() implies in_class(
        #[trigger] text[k],
        CharClass::AnyBut('\n'),
    ) by {
        if k >= plain_prefix().len() {
            assert(text[k] == digits[k - plain_prefix().len()]);
            assert(crate::number::is_ascii_digit(digits[k - plain_prefix().len()]));
        } else {
            assert(text[k] == plain_prefix()[k]);
        }
    }
    lemma_leading_run(text, CharClass::AnyBut('\n'), text.len() as int);
    assert(text.take(text.len() as int) =~= text);
}

/// What the client remembers between runs.
#[derive(Clone, Debug)]
pub struct Settings {
    pub session: String,
    pub theme: String,
}

impl Default for Settings {
    /// No session, the `ember` theme.
    fn default() -> (s: Settings)
        ensures
            s.session@.len() == 0,
            s.theme@ == "ember"@,
    {
        Settings { session: String::new(), theme: String::from_str("ember") }
    }
}

} // verus!
