//! The Docker side of a setup: the command line that starts a database
//! container, and what the outcome of a `docker` command yields. Running the
//! commands is left to the caller.

use vstd::prelude::*;
use vstd::string::*;

use crate::text::{owned, push_char};

verus! {

/// A JSON value, as `docker inspect` prints it. A number is held as its text.
pub enum JsonValue {
    Null,
    Bool(bool),
    Number(String),
    String(String),
    Array(Vec<JsonValue>),
    Object(Vec<(String, JsonValue)>),
}

/// The element at `i` of an array; `Null` for anything else.
pub open spec fn json_index(v: JsonValue, i: int) -> JsonValue {
    match v {
        JsonValue::Array(a) => if 0 <= i < a@.len() { a@[i] } else { JsonValue::Null },
        _ => JsonValue::Null,
    }
}

/// The value of the first entry named `key`.
pub open spec fn entry_named(es: Seq<(String, JsonValue)>, key: Seq<char>) -> Option<JsonValue>
    decreases es.len(),
{
    if es.len() == 0 {
        None
    } else if es[0].0@ == key {
        Some(es[0].1)
    } else {
        entry_named(es.skip(1), key)
    }
}

/// The member `key` of an object; `None` for anything else.
pub open spec fn json_get(v: JsonValue, key: Seq<char>) -> Option<JsonValue> {
    match v {
        JsonValue::Object(es) => entry_named(es@, key),
        _ => None,
    }
}

/// The error where the inspected container has no network settings.
pub open spec fn no_network_settings_text() -> Seq<char> {
    "Netzwerkeinstellungen nicht gefunden"@
}

/// The error where the first network of the container has no address.
pub open spec fn no_ip_address_text() -> Seq<char> {
    "IP-Adresse nicht gefunden"@
}

/// The IP address of a container in the output of `docker inspect`: the
/// `IPAddress` string of the first network under
/// `[0].NetworkSettings.Networks`.
pub open spec fn container_ip_of(inspect: JsonValue) -> Result<Seq<char>, Seq<char>> {
    let settings = json_get(json_index(inspect, 0), "NetworkSettings"@);
    let networks = match settings {
        Some(s) => json_get(s, "Networks"@),
        None => None,
    };
    match networks {
        Some(nws) => match nws {
            JsonValue::Object(es) => if es@.len() > 0 {
                match json_get(es@[0].1, "IPAddress"@) {
                    Some(JsonValue::String(ip)) => Ok(ip@),
                    _ => Err(no_ip_address_text()),
                }
            } else {
                Err(no_ip_address_text())
            },
            _ => Err(no_ip_address_text()),
        },
        None => Err(no_network_settings_text()),
    }
}

fn get_member<'a>(v: &'a JsonValue, key: &str) -> (r: Option<&'a JsonValue>)
    ensures
        match r {
            Some(m) => json_get(*v, key@) == Some(*m),
            None => json_get(*v, key@) is None,
        },
{
    match v {
        JsonValue::Object(es) => {
            let k = owned(key);
            let mut i: usize = 0;
            assert(es@.skip(0) =~= es@);
            while i < es.len()
                invariant
                    i <= es.len(),
                    k@ == key@,
                    json_get(*v, key@) == entry_named(es@, key@),
                    entry_named(es@, key@) == entry_named(es@.skip(i as int), key@),
                decreases es.len() - i,
            {
                let ghost rest = es@.skip(i as int);
                assert(rest[0] == es@[i as int]);
                assert(rest.skip(1) =~= es@.skip(i + 1));
                if es[i].0 == k {
                    assert(rest[0].0@ == key@);
                    assert(entry_named(rest, key@) == Some(rest[0].1));
                    return Some(&es[i].1);
                }
                i = i + 1;
            }
            assert(es@.skip(i as int).len() == 0);
            None
        },
        _ => None,
    }
}

/// The IP address of a container from the output of `docker inspect`, or
/// the reason there is none.
pub fn container_ip(inspect: &JsonValue) -> (r: Result<String, String>)
    ensures
        match (r, container_ip_of(*inspect)) {
            (Ok(a), Ok(b)) => a@ == b,
            (Err(a), Err(b)) => a@ == b,
            _ => false,
        },
{
    let first = match inspect {
        JsonValue::Array(a) => if a.len() > 0 { Some(&a[0]) } else { None },
        _ => None,
    };
    let networks = match first {
        Some(f) => match get_member(f, "NetworkSettings") {
            Some(ns) => get_member(ns, "Networks"),
            None => None,
        },
        None => None,
    };
    match networks {
        Some(nws) => {
            let ip = match nws {
                JsonValue::Object(es) => if es.len() > 0 {
                    match get_member(&es[0].1, "IPAddress") {
                        Some(JsonValue::String(ip)) => Some(ip.clone()),
                        _ => None,
                    }
                } else {
                    None
                },
                _ => None,
            };
            match ip {
                Some(ip) => Ok(ip),
                None => Err(owned("IP-Adresse nicht gefunden")),
            }
        },
        None => Err(owned("Netzwerkeinstellungen nicht gefunden")),
    }
}

/// `r` carries the same text as `expected`, in the same variant.
pub open spec fn same_text_result(r: Result<String, String>, expected: Result<Seq<char>, Seq<char>>) -> bool {
    match (r, expected) {
        (Ok(a), Ok(b)) => a@ == b,
        (Err(a), Err(b)) => a@ == b,
        _ => false,
    }
}

/// The error where the output of `docker inspect` is not JSON, with the
/// reason the parser gives.
pub open spec fn parse_error_text(reason: Seq<char>) -> Seq<char> {
    "Fehler beim Parsen der JSON-Ausgabe: "@ + reason
}

#[verifier::external_type_specification]
#[verifier::external_body]
pub struct ExSerdeJsonValue(serde_json::Value);

/// What `serde_json::from_str` reads from `text` as a `serde_json::Value`,
/// held as the library's value; or the text of the error it reports.
pub uninterp spec fn json_read(text: Seq<char>) -> Result<JsonValue, Seq<char>>;

/// The library's value for a value of `serde_json`, variant for variant: a
/// number is held as the text `serde_json` writes it as, and the members of
/// an object come in the order its map yields them. Nothing is stated of the
/// result here; `parse_json` states what the two calls give together.
#[verifier::external_body]
fn json_value_from_serde(v: &serde_json::Value) -> JsonValue {
    match v {
        serde_json::Value::Null => JsonValue::Null,
        serde_json::Value::Bool(b) => JsonValue::Bool(*b),
        serde_json::Value::Number(n) => JsonValue::Number(n.to_string()),
        serde_json::Value::String(t) => JsonValue::String(t.clone()),
        serde_json::Value::Array(a) => JsonValue::Array(a.iter().map(json_value_from_serde).collect()),
        serde_json::Value::Object(m) => JsonValue::Object(
            m.iter().map(|(k, x)| (k.clone(), json_value_from_serde(x))).collect(),
        ),
    }
}

/// Reads `text` with `serde_json::from_str` as a `serde_json::Value`. The
/// contract claims that the outcome depends on the text alone: the value it
/// reads, or the text (`Display`) of the error it reports.
#[verifier::external_body]
pub(crate) fn parse_json(text: &str) -> (r: Result<JsonValue, String>)
    ensures
        match json_read(text@) {
            Ok(v) => r == Ok::<JsonValue, String>(v),
            Err(m) => r matches Err(e) && e@ == m,
        },
{
    match serde_json::from_str::<serde_json::Value>(text) {
        Ok(v) => Ok(json_value_from_serde(&v)),
        Err(e) => Err(e.to_string()),
    }
}

/// The IP address of a container from what was read of the output of
/// `docker inspect`: where it was JSON, what `container_ip` finds in it;
/// otherwise the parse error, with the reason the parser gave.
pub fn container_ip_from_read(read: &Result<JsonValue, String>) -> (r: Result<String, String>)
    ensures
        match *read {
            Ok(v) => same_text_result(r, container_ip_of(v)),
            Err(m) => r matches Err(e) && e@ == parse_error_text(m@),
        },
{
    match read {
        Ok(v) => container_ip(v),
        Err(m) => {
            let mut e = owned("Fehler beim Parsen der JSON-Ausgabe: ");
            e.append(m.as_str());
            Err(e)
        },
    }
}

/// The IP address of a container from the output of `docker inspect`.
pub fn container_ip_from_inspect(output: &str) -> (r: Result<String, String>)
    ensures
        match json_read(output@) {
            Ok(v) => same_text_result(r, container_ip_of(v)),
            Err(m) => r matches Err(e) && e@ == parse_error_text(m),
        },
{
    let read = parse_json(output);
    container_ip_from_read(&read)
}

/// What running a command yielded: its output as text where it succeeded,
/// the reason the output is not text, its error output where it failed (or
/// the reason that is not text), or the reason it could not be run.
pub enum CommandOutcome {
    Succeeded(String),
    Undecodable(String),
    Failed(Result<String, String>),
    NotRun(String),
}

/// Whether a character is white space, as Unicode's `White_Space` property
/// (and `char::is_whitespace`) has it.
pub open spec fn is_white_space(c: char) -> bool {
    let n = c as u32;
    (0x9 <= n <= 0xd) || n == 0x20 || n == 0x85 || n == 0xa0 || n == 0x1680 || (0x2000 <= n
        <= 0x200a) || n == 0x2028 || n == 0x2029 || n == 0x202f || n == 0x205f || n == 0x3000
}

/// `s` without its leading white space.
pub open spec fn trim_start(s: Seq<char>) -> Seq<char>
    decreases s.len(),
{
    if s.len() > 0 && is_white_space(s[0]) {
        trim_start(s.skip(1))
    } else {
        s
    }
}

/// `s` without its trailing white space.
pub open spec fn trim_end(s: Seq<char>) -> Seq<char>
    decreases s.len(),
{
    if s.len() > 0 && is_white_space(s.last()) {
        trim_end(s.drop_last())
    } else {
        s
    }
}

/// `s` without its leading and trailing white space.
pub open spec fn trimmed(s: Seq<char>) -> Seq<char> {
    trim_end(trim_start(s))
}

fn white_space(c: char) -> (r: bool)
    ensures
        r == is_white_space(c),
{
    let n = c as u32;
    (0x9 <= n && n <= 0xd) || n == 0x20 || n == 0x85 || n == 0xa0 || n == 0x1680 || (0x2000 <= n
        && n <= 0x200a) || n == 0x2028 || n == 0x2029 || n == 0x202f || n == 0x205f || n == 0x3000
}

/// `s` without its leading and trailing white space, as `str::trim` gives it.
pub fn trim(s: &str) -> (r: String)
    ensures
        r@ == trimmed(s@),
{
    let v = crate::text::chars_of(s);
    let n = v.len();
    let mut a: usize = 0;
    assert(v@.skip(0) =~= v@);
    while a < n && white_space(v[a])
        invariant
            a <= n,
            n == v@.len(),
            trim_start(v@) == trim_start(v@.skip(a as int)),
        decreases n - a,
    {
        assert(v@.skip(a as int).skip(1) =~= v@.skip(a + 1));
        a = a + 1;
    }
    let ghost start = v@.skip(a as int);
    assert(trim_start(v@) == start) by {
        if a < n {
            assert(start[0] == v@[a as int]);
        } else {
            assert(start.len() == 0);
        }
    }
    let mut b: usize = n;
    assert(start.subrange(0, (b - a) as int) =~= start);
    while b > a && white_space(v[b - 1])
        invariant
            a <= b <= n,
            n == v@.len(),
            start == v@.skip(a as int),
            trim_end(start) == trim_end(start.subrange(0, (b - a) as int)),
        decreases b - a,
    {
        let ghost cur = start.subrange(0, (b - a) as int);
        assert(cur.last() == v@[b - 1]);
        assert(cur.drop_last() =~= start.subrange(0, (b - 1 - a) as int));
        b = b - 1;
    }
    let ghost kept = start.subrange(0, (b - a) as int);
    assert(trim_end(kept) == kept) by {
        if b > a {
            assert(kept.last() == v@[b - 1]);
        }
    }
    let mut r = String::new();
    let mut i: usize = a;
    while i < b
        invariant
            a <= i <= b <= n,
            n == v@.len(),
            kept == start.subrange(0, (b - a) as int),
            start == v@.skip(a as int),
            r@ == kept.subrange(0, (i - a) as int),
        decreases b - i,
    {
        push_char(&mut r, v[i]);
        assert(kept.subrange(0, (i + 1 - a) as int) =~= kept.subrange(0, (i - a) as int).push(v@[i as int]));
        i = i + 1;
    }
    assert(kept.subrange(0, (b - a) as int) =~= kept);
    r
}

/// The text of `prefix` followed by `detail`.
fn joined(prefix: &str, detail: &String) -> (r: String)
    ensures
        r@ == prefix@ + detail@,
{
    let mut r = owned(prefix);
    r.append(detail.as_str());
    r
}

/// The id of a container started with `docker run -d`, from the outcome of
/// the command: its output without surrounding white space where it
/// succeeded, and otherwise the reason it did not.
pub fn started_container_id(outcome: &CommandOutcome) -> (r: Result<String, String>)
    ensures
        match *outcome {
            CommandOutcome::Succeeded(out) => r matches Ok(id) && id@ == trimmed(out@),
            CommandOutcome::Undecodable(e) => r matches Err(m)
                && m@ == "Fehler beim Konvertieren des Outputs: "@ + e@,
            CommandOutcome::Failed(Ok(err)) => r matches Err(m) && m@ == err@,
            CommandOutcome::Failed(Err(e)) => r matches Err(m)
                && m@ == "Fehler beim Lesen des Fehleroutputs: "@ + e@,
            CommandOutcome::NotRun(e) => r matches Err(m)
                && m@ == "Fehler beim Ausführen des Befehls: "@ + e@,
        },
{
    match outcome {
        CommandOutcome::Succeeded(out) => Ok(trim(out.as_str())),
        CommandOutcome::Undecodable(e) => Err(joined("Fehler beim Konvertieren des Outputs: ", e)),
        CommandOutcome::Failed(Ok(err)) => Err(err.clone()),
        CommandOutcome::Failed(Err(e)) => Err(joined("Fehler beim Lesen des Fehleroutputs: ", e)),
        CommandOutcome::NotRun(e) => Err(joined("Fehler beim Ausführen des Befehls: ", e)),
    }
}

/// The IP address of a container from the outcome of `docker inspect`:
/// where the command succeeded, what its output gives; otherwise the same
/// error as for a container that did not start.
pub fn container_ip_from_outcome(outcome: &CommandOutcome) -> (r: Result<String, String>)
    ensures
        match *outcome {
            CommandOutcome::Succeeded(out) => match json_read(out@) {
                Ok(v) => same_text_result(r, container_ip_of(v)),
                Err(m) => r matches Err(e) && e@ == parse_error_text(m),
            },
            CommandOutcome::Undecodable(e) => r matches Err(m)
                && m@ == "Fehler beim Konvertieren des Outputs: "@ + e@,
            CommandOutcome::Failed(Ok(err)) => r matches Err(m) && m@ == err@,
            CommandOutcome::Failed(Err(e)) => r matches Err(m)
                && m@ == "Fehler beim Lesen des Fehleroutputs: "@ + e@,
            CommandOutcome::NotRun(e) => r matches Err(m)
                && m@ == "Fehler beim Ausführen des Befehls: "@ + e@,
        },
{
    match outcome {
        CommandOutcome::Succeeded(out) => container_ip_from_inspect(out.as_str()),
        _ => started_container_id(outcome),
    }
}

/// The arguments of `docker` that start a MongoDB container: detached,
/// named `name`, with the root user and password set, the server's port
/// published on `port`, from `image`.
pub fn mongo_run_arguments(name: &str, image: &str, user: &str, pwd: &str, port: &str) -> (r: Vec<String>)
    ensures
        r@.map_values(|s: String| s@) == seq![
            "run"@,
            "-d"@,
            "--name"@,
            name@,
            "-e"@,
            "MONGO_INITDB_ROOT_USERNAME="@ + user@,
            "-e"@,
            "MONGO_INITDB_ROOT_PASSWORD="@ + pwd@,
            "-p"@,
            port@ + ":27017"@,
            image@,
        ],
{
    let mut mongo_user = owned("MONGO_INITDB_ROOT_USERNAME=");
    mongo_user.append(user);
    let mut mongo_pwd = owned("MONGO_INITDB_ROOT_PASSWORD=");
    mongo_pwd.append(pwd);
    let mut docker_port = owned(port);
    docker_port.append(":27017");
    let mut r: Vec<String> = Vec::new();
    r.push(owned("run"));
    r.push(owned("-d"));
    r.push(owned("--name"));
    r.push(owned(name));
    r.push(owned("-e"));
    r.push(mongo_user);
    r.push(owned("-e"));
    r.push(mongo_pwd);
    r.push(owned("-p"));
    r.push(docker_port);
    r.push(owned(image));
    assert(r@.map_values(|s: String| s@) =~= seq![
        "run"@,
        "-d"@,
        "--name"@,
        name@,
        "-e"@,
        "MONGO_INITDB_ROOT_USERNAME="@ + user@,
        "-e"@,
        "MONGO_INITDB_ROOT_PASSWORD="@ + pwd@,
        "-p"@,
        port@ + ":27017"@,
        image@,
    ]);
    r
}

} // verus!

verus! {

proof fn lemma_trim_start_first(s: Seq<char>)
    ensures
        trim_start(s).len() > 0 ==> !is_white_space(trim_start(s)[0]),
    decreases s.len(),
{
    if s.len() > 0 && is_white_space(s[0]) {
        lemma_trim_start_first(s.skip(1));
    }
}

proof fn lemma_trim_end_prefix(s: Seq<char>)
    ensures
        trim_end(s).len() <= s.len(),
        trim_end(s) == s.subrange(0, trim_end(s).len() as int),
        trim_end(s).len() > 0 ==> !is_white_space(trim_end(s).last()),
        s.len() > 0 && !is_white_space(s[0]) ==> trim_end(s).len() > 0,
    decreases s.len(),
{
    if s.len() > 0 && is_white_space(s.last()) {
        lemma_trim_end_prefix(s.drop_last());
        let t = trim_end(s.drop_last());
        assert(t =~= s.subrange(0, t.len() as int));
        if s.len() > 0 && !is_white_space(s[0]) {
            assert(s.drop_last().len() > 0);
            assert(s.drop_last()[0] == s[0]);
        }
    } else {
        assert(s =~= s.subrange(0, s.len() as int));
    }
}

/// Trimming a trimmed text changes nothing.
pub proof fn law_trim_idempotent(s: Seq<char>)
    ensures
        trimmed(trimmed(s)) == trimmed(s),
{
    let a = trim_start(s);
    lemma_trim_start_first(s);
    let b = trim_end(a);
    lemma_trim_end_prefix(a);
    if b.len() > 0 {
        assert(b[0] == a[0]);
    }
    assert(trim_start(b) == b);
}

/// A member of an object is found wherever it stands: the first entry of
/// that name gives its value; an object with no entry of that name gives
/// none.
pub proof fn law_member_found_anywhere(es: Vec<(String, JsonValue)>, key: Seq<char>, i: int)
    requires
        0 <= i < es@.len(),
        es@[i].0@ == key,
        forall|j: int| 0 <= j < i ==> (#[trigger] es@[j]).0@ != key,
    ensures
        json_get(JsonValue::Object(es), key) == Some(es@[i].1),
{
    lemma_entry_named_at(es@, key, i);
}

/// An object with no entry named `key` has no member `key`.
pub proof fn law_member_absent(es: Vec<(String, JsonValue)>, key: Seq<char>)
    requires
        forall|j: int| 0 <= j < es@.len() ==> (#[trigger] es@[j]).0@ != key,
    ensures
        json_get(JsonValue::Object(es), key) is None,
{
    lemma_entry_named_absent(es@, key);
}

proof fn lemma_entry_named_at(es: Seq<(String, JsonValue)>, key: Seq<char>, i: int)
    requires
        0 <= i < es.len(),
        es[i].0@ == key,
        forall|j: int| 0 <= j < i ==> (#[trigger] es[j]).0@ != key,
    ensures
        entry_named(es, key) == Some(es[i].1),
    decreases i,
{
    if i > 0 {
        assert(es[0].0@ != key);
        let rest = es.skip(1);
        assert forall|j: int| 0 <= j < i - 1 implies (#[trigger] rest[j]).0@ != key by {
            assert(rest[j] == es[j + 1]);
        }
        assert(rest[i - 1] == es[i]);
        lemma_entry_named_at(rest, key, i - 1);
    }
}

proof fn lemma_entry_named_absent(es: Seq<(String, JsonValue)>, key: Seq<char>)
    requires
        forall|j: int| 0 <= j < es.len() ==> (#[trigger] es[j]).0@ != key,
    ensures
        entry_named(es, key) is None,
    decreases es.len(),
{
    if es.len() > 0 {
        assert(es[0].0@ != key);
        let rest = es.skip(1);
        assert forall|j: int| 0 <= j < rest.len() implies (#[trigger] rest[j]).0@ != key by {
            assert(rest[j] == es[j + 1]);
        }
        lemma_entry_named_absent(rest, key);
    }
}

} // verus!
