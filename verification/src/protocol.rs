//! The command translator: decodes the external device-command vocabulary
//! into mutations of the fan state, and renders the state into the two
//! outbound JSON shapes (capability descriptor and status snapshot).
//! Object keys appear in ascending order; embedded strings are escaped as
//! JSON demands.

use vstd::prelude::*;
use vstd::string::StrSliceExecFns;
use vstd::string::StringExecFns;
use crate::fan::{Fan, Speed};

verus! {

/// Relies on String::push: appends the given character to the end of the
/// string.
pub assume_specification[ String::push ](s: &mut String, c: char)
    ensures
        final(s)@ == old(s)@ + seq![c],
;

/// The lower-case hexadecimal digit of a value below sixteen.
pub open spec fn hex_digit(n: u32) -> char {
    if n == 0 {
        '0'
    } else if n == 1 {
        '1'
    } else if n == 2 {
        '2'
    } else if n == 3 {
        '3'
    } else if n == 4 {
        '4'
    } else if n == 5 {
        '5'
    } else if n == 6 {
        '6'
    } else if n == 7 {
        '7'
    } else if n == 8 {
        '8'
    } else if n == 9 {
        '9'
    } else if n == 10 {
        'a'
    } else if n == 11 {
        'b'
    } else if n == 12 {
        'c'
    } else if n == 13 {
        'd'
    } else if n == 14 {
        'e'
    } else {
        'f'
    }
}

fn hex_char(n: u32) -> (r: char)
    requires
        n < 16,
    ensures
        r == hex_digit(n),
{
    if n == 0 {
        '0'
    } else if n == 1 {
        '1'
    } else if n == 2 {
        '2'
    } else if n == 3 {
        '3'
    } else if n == 4 {
        '4'
    } else if n == 5 {
        '5'
    } else if n == 6 {
        '6'
    } else if n == 7 {
        '7'
    } else if n == 8 {
        '8'
    } else if n == 9 {
        '9'
    } else if n == 10 {
        'a'
    } else if n == 11 {
        'b'
    } else if n == 12 {
        'c'
    } else if n == 13 {
        'd'
    } else if n == 14 {
        'e'
    } else {
        'f'
    }
}

/// How one character appears inside a JSON string: quote and backslash
/// get a backslash escape, the five named control characters their short
/// escapes, any other control character a four-digit unicode escape, and
/// everything else stands as itself.
pub open spec fn escaped_char(c: char) -> Seq<char> {
    if c == '"' {
        "\\\""@
    } else if c == '\\' {
        "\\\\"@
    } else if c == '\u{8}' {
        "\\b"@
    } else if c == '\t' {
        "\\t"@
    } else if c == '\n' {
        "\\n"@
    } else if c == '\u{c}' {
        "\\f"@
    } else if c == '\r' {
        "\\r"@
    } else if (c as u32) < 32 {
        "\\u00"@ + seq![hex_digit((c as u32) / 16), hex_digit((c as u32) % 16)]
    } else {
        seq![c]
    }
}

/// A character sequence with every character escaped for JSON.
pub open spec fn escaped(s: Seq<char>) -> Seq<char>
    decreases s.len(),
{
    if s.len() == 0 {
        Seq::empty()
    } else {
        escaped(s.drop_last()) + escaped_char(s.last())
    }
}

/// A JSON string value: the escaped characters between double quotes.
pub open spec fn jstr(s: Seq<char>) -> Seq<char> {
    "\""@ + escaped(s) + "\""@
}

/// A JSON boolean value.
pub open spec fn jbool(b: bool) -> Seq<char> {
    if b {
        "true"@
    } else {
        "false"@
    }
}

/// Appends the JSON-escaped characters of `s` to `out`.
fn append_escaped(out: &mut String, s: &str)
    ensures
        final(out)@ == old(out)@ + escaped(s@),
{
    let ghost g0 = out@;
    let n = s.unicode_len();
    let mut i: usize = 0;
    while i < n
        invariant
            n == s@.len(),
            i <= n,
            out@ == g0 + escaped(s@.take(i as int)),
        decreases n - i,
    {
        let c = s.get_char(i);
        if c == '"' {
            out.append("\\\"");
        } else if c == '\\' {
            out.append("\\\\");
        } else if c == '\u{8}' {
            out.append("\\b");
        } else if c == '\t' {
            out.append("\\t");
        } else if c == '\n' {
            out.append("\\n");
        } else if c == '\u{c}' {
            out.append("\\f");
        } else if c == '\r' {
            out.append("\\r");
        } else if (c as u32) < 32 {
            out.append("\\u00");
            out.push(hex_char((c as u32) / 16));
            out.push(hex_char((c as u32) % 16));
        } else {
            out.push(c);
        }
        proof {
            assert(s@.take(i as int + 1).drop_last() =~= s@.take(i as int));
            assert(s@.take(i as int + 1).last() == s@[i as int]);
            assert(out@ =~= g0 + escaped(s@.take(i as int + 1)));
        }
        i = i + 1;
    }
    proof {
        assert(s@.take(n as int) =~= s@);
    }
}

/// Appends the JSON string value for `s` to `out`.
fn append_jstr(out: &mut String, s: &str)
    ensures
        final(out)@ == old(out)@ + jstr(s@),
{
    let ghost g0 = out@;
    out.append("\"");
    append_escaped(out, s);
    out.append("\"");
    proof {
        assert(out@ =~= g0 + jstr(s@));
    }
}

/// Appends the JSON boolean for `b` to `out`.
fn append_jbool(out: &mut String, b: bool)
    ensures
        final(out)@ == old(out)@ + jbool(b),
{
    if b {
        out.append("true");
    } else {
        out.append("false");
    }
}

/// The comma-separated JSON string values of a list, without brackets.
pub open spec fn jstr_list(items: Seq<String>) -> Seq<char>
    decreases items.len(),
{
    if items.len() == 0 {
        Seq::empty()
    } else if items.len() == 1 {
        jstr(items[0]@)
    } else {
        jstr_list(items.drop_last()) + ","@ + jstr(items.last()@)
    }
}

/// A JSON array of string values.
pub open spec fn jarray(items: Seq<String>) -> Seq<char> {
    "["@ + jstr_list(items) + "]"@
}

/// Appends the JSON array of string values for `items` to `out`.
fn append_jarray(out: &mut String, items: &Vec<String>)
    ensures
        final(out)@ == old(out)@ + jarray(items@),
{
    let ghost g0 = out@;
    out.append("[");
    let mut i: usize = 0;
    while i < items.len()
        invariant
            i <= items@.len(),
            out@ == g0 + "["@ + jstr_list(items@.take(i as int)),
        decreases items@.len() - i,
    {
        if i > 0 {
            out.append(",");
        }
        append_jstr(out, items[i].as_str());
        proof {
            assert(items@.take(i as int + 1).drop_last() =~= items@.take(i as int));
            assert(items@.take(i as int + 1).last() == items@[i as int]);
            if i == 0 {
                assert(items@.take(1).len() == 1);
            }
            assert(out@ =~= g0 + "["@ + jstr_list(items@.take(i as int + 1)));
        }
        i = i + 1;
    }
    out.append("]");
    proof {
        assert(items@.take(items@.len() as int) =~= items@);
        assert(out@ =~= g0 + jarray(items@));
    }
}

/// The tier a speed key resolves to: each of the three stable keys maps
/// to its own tier, and any unrecognized key falls back to `Low`.
pub open spec fn spec_tier_of(key: Seq<char>) -> Speed {
    if key == "low_key"@ {
        Speed::Low
    } else if key == "med_key"@ {
        Speed::Medium
    } else if key == "high_key"@ {
        Speed::High
    } else {
        Speed::Low
    }
}

/// Resolves an inbound speed key to a tier; an unrecognized key falls
/// back to `Low`.
pub fn tier_of(key: &str) -> (t: Speed)
    ensures
        t == spec_tier_of(key@),
{
    let k = key.to_owned();
    if k == "low_key".to_owned() {
        Speed::Low
    } else if k == "med_key".to_owned() {
        Speed::Medium
    } else if k == "high_key".to_owned() {
        Speed::High
    } else {
        Speed::Low
    }
}

/// Round trip: the stable key of a tier resolves back to that same tier,
/// so the outbound and inbound speed vocabularies cannot drift apart.
pub proof fn lemma_key_round_trip(t: Speed)
    ensures
        spec_tier_of(t.spec_key()) == t,
{
    reveal_strlit("low_key");
    reveal_strlit("med_key");
    reveal_strlit("high_key");
    assert("low_key"@[0] == 'l');
    assert("med_key"@[0] == 'm');
    assert("low_key"@.len() == 7);
    assert("med_key"@.len() == 7);
    assert("high_key"@.len() == 8);
}

/// Any key outside the stable vocabulary resolves to `Low`.
pub proof fn lemma_unknown_key_defaults_low(key: Seq<char>)
    requires
        key != "low_key"@,
        key != "med_key"@,
        key != "high_key"@,
    ensures
        spec_tier_of(key) == Speed::Low,
{
}

/// The parameters of an inbound execute request, as the transport layer
/// hands them over: both optional.
pub struct ExecuteRequestParams {
    pub fan_speed: Option<String>,
    pub on: Option<bool>,
}

/// A decoded inbound execute request.
pub struct ExecuteRequest {
    pub id: String,
    pub command: String,
    pub params: ExecuteRequestParams,
}

/// The closed command vocabulary: the two recognized commands with their
/// consumed parameters (the speed key already resolved to a tier), and a
/// fallthrough for every other command name.
#[derive(Debug, PartialEq, Eq, Structural, Clone, Copy)]
pub enum Command {
    OnOff { on: Option<bool> },
    SetFanSpeed { speed: Option<Speed> },
    Unrecognized,
}

/// The view of an optional speed key.
pub open spec fn opt_key_view(key: Option<String>) -> Option<Seq<char>> {
    match key {
        Option::Some(k) => Option::Some(k@),
        Option::None => Option::None,
    }
}

/// How a command name and its parameters decode: the on/off command
/// consumes only `on`, the speed-set command only `fanSpeed` (resolving
/// the key, unrecognized keys falling back to `Low`), and any other name
/// is the unrecognized command.
pub open spec fn spec_decode(command: Seq<char>, on: Option<bool>, key: Option<Seq<char>>) -> Command {
    if command == "action.devices.commands.OnOff"@ {
        Command::OnOff { on: on }
    } else if command == "action.devices.commands.SetFanSpeed"@ {
        match key {
            Option::Some(k) => Command::SetFanSpeed { speed: Option::Some(spec_tier_of(k)) },
            Option::None => Command::SetFanSpeed { speed: Option::None },
        }
    } else {
        Command::Unrecognized
    }
}

/// Decodes an inbound request into the closed command vocabulary.
pub fn decode(req: &ExecuteRequest) -> (c: Command)
    ensures
        c == spec_decode(req.command@, req.params.on, opt_key_view(req.params.fan_speed)),
{
    if req.command == "action.devices.commands.OnOff".to_owned() {
        Command::OnOff { on: req.params.on }
    } else if req.command == "action.devices.commands.SetFanSpeed".to_owned() {
        match &req.params.fan_speed {
            Option::Some(k) => Command::SetFanSpeed { speed: Option::Some(tier_of(k.as_str())) },
            Option::None => Command::SetFanSpeed { speed: Option::None },
        }
    } else {
        Command::Unrecognized
    }
}

/// The state a command leaves the fan in: a present `on` parameter
/// assigns the power flag, a present tier assigns the speed, an absent
/// parameter or an unrecognized command leaves the state untouched.
pub open spec fn apply_command(f: Fan, c: Command) -> Fan {
    match c {
        Command::OnOff { on: Option::Some(b) } => Fan { speed: f.speed, on: b },
        Command::OnOff { on: Option::None } => f,
        Command::SetFanSpeed { speed: Option::Some(t) } => Fan { speed: t, on: f.on },
        Command::SetFanSpeed { speed: Option::None } => f,
        Command::Unrecognized => f,
    }
}

/// Performs a decoded command on the fan state.
pub fn execute(fan: &mut Fan, c: &Command)
    ensures
        *final(fan) == apply_command(*old(fan), *c),
{
    match c {
        Command::OnOff { on: Option::Some(b) } => fan.set_on(*b),
        Command::OnOff { on: Option::None } => (),
        Command::SetFanSpeed { speed: Option::Some(t) } => fan.set_speed(*t),
        Command::SetFanSpeed { speed: Option::None } => (),
        Command::Unrecognized => (),
    }
}

/// Decodes an inbound request and performs it on the fan state.
pub fn execute_request(fan: &mut Fan, req: &ExecuteRequest)
    ensures
        *final(fan) == apply_command(
            *old(fan),
            spec_decode(req.command@, req.params.on, opt_key_view(req.params.fan_speed)),
        ),
{
    let c = decode(req);
    execute(fan, &c);
}

/// A command never mixes the two fields: the speed-set command leaves the
/// power flag alone, and the on/off command leaves the tier alone.
pub proof fn lemma_command_touches_one_field(f: Fan, c: Command)
    ensures
        (c matches Command::SetFanSpeed { .. }) ==> apply_command(f, c).on == f.on,
        (c matches Command::OnOff { .. }) ==> apply_command(f, c).speed == f.speed,
        c == Command::Unrecognized ==> apply_command(f, c) == f,
{
}

/// The device configuration: network credentials for the surrounding
/// runtime, and the identity fields that the capability descriptor
/// reports.
pub struct Config {
    pub wifi_ssid: String,
    pub wifi_psk: String,
    pub id: String,
    pub device_type: String,
    pub traits: Vec<String>,
    pub name: String,
    pub will_report_state: bool,
}

/// The status snapshot for a fan state: one object under the device
/// identifier, with the power flag, the online marker, the current speed
/// key and the success status, keys in ascending order.
pub open spec fn query_json(id: Seq<char>, on: bool, key: Seq<char>) -> Seq<char> {
    "{"@ + jstr(id) + ":{\"currentFanSpeedSetting\":"@ + jstr(key) + ",\"on\":"@ + jbool(on)
        + ",\"online\":true,\"status\":\"SUCCESS\"}}"@
}

/// Renders the status snapshot of the current fan state, keyed by the
/// device identifier, with the speed as its stable string key.
pub fn query_res(fan: &Fan, id: &str) -> (r: String)
    ensures
        r@ == query_json(id@, fan.on, fan.speed.spec_key()),
{
    let mut out = String::new();
    out.append("{");
    append_jstr(&mut out, id);
    out.append(":{\"currentFanSpeedSetting\":");
    let key = fan.get_speed().to_string();
    append_jstr(&mut out, key.as_str());
    out.append(",\"on\":");
    append_jbool(&mut out, fan.is_on());
    out.append(",\"online\":true,\"status\":\"SUCCESS\"}}");
    proof {
        assert(out@ =~= query_json(id@, fan.on, fan.speed.spec_key()));
    }
    out
}

/// The capability descriptor for a configuration: device metadata plus
/// the fixed, ordered speed vocabulary with its English synonyms, keys in
/// ascending order. Static — it never reads the fan state.
pub open spec fn sync_json(
    id: Seq<char>,
    device_type: Seq<char>,
    traits: Seq<String>,
    name: Seq<char>,
    will_report_state: bool,
) -> Seq<char> {
    "{\"attributes\":{\"availableFanSpeeds\":{\"ordered\":true,\"speeds\":[{\"speed_name\":\"low_key\",\"speed_values\":[{\"lang\":\"en\",\"speed_synonym\":[\"low\",\"slow\"]}]},{\"speed_name\":\"med_key\",\"speed_values\":[{\"lang\":\"en\",\"speed_synonym\":[\"medium\",\"normal\"]}]},{\"speed_name\":\"high_key\",\"speed_values\":[{\"lang\":\"en\",\"speed_synonym\":[\"high\",\"fast\"]}]}]},\"reversible\":false},\"deviceInfo\":{\"hwVersion\":\"1.0\",\"manufacturer\":\"BigGainAFisherman Inc.\",\"model\":\"Super Advanced IoT Fan\",\"swVersion\":\"1.0\"},\"id\":"@
        + jstr(id) + ",\"name\":{\"name\":"@ + jstr(name) + "},\"traits\":"@ + jarray(traits)
        + ",\"type\":"@ + jstr(device_type) + ",\"willReportState\":"@ + jbool(will_report_state)
        + "}"@
}

/// Renders the capability descriptor for the configuration.
pub fn sync_res(cfg: &Config) -> (r: String)
    ensures
        r@ == sync_json(cfg.id@, cfg.device_type@, cfg.traits@, cfg.name@, cfg.will_report_state),
{
    let mut out = String::new();
    out.append(
        "{\"attributes\":{\"availableFanSpeeds\":{\"ordered\":true,\"speeds\":[{\"speed_name\":\"low_key\",\"speed_values\":[{\"lang\":\"en\",\"speed_synonym\":[\"low\",\"slow\"]}]},{\"speed_name\":\"med_key\",\"speed_values\":[{\"lang\":\"en\",\"speed_synonym\":[\"medium\",\"normal\"]}]},{\"speed_name\":\"high_key\",\"speed_values\":[{\"lang\":\"en\",\"speed_synonym\":[\"high\",\"fast\"]}]}]},\"reversible\":false},\"deviceInfo\":{\"hwVersion\":\"1.0\",\"manufacturer\":\"BigGainAFisherman Inc.\",\"model\":\"Super Advanced IoT Fan\",\"swVersion\":\"1.0\"},\"id\":",
    );
    append_jstr(&mut out, cfg.id.as_str());
    out.append(",\"name\":{\"name\":");
    append_jstr(&mut out, cfg.name.as_str());
    out.append("},\"traits\":");
    append_jarray(&mut out, &cfg.traits);
    out.append(",\"type\":");
    append_jstr(&mut out, cfg.device_type.as_str());
    out.append(",\"willReportState\":");
    append_jbool(&mut out, cfg.will_report_state);
    out.append("}");
    proof {
        assert(out@ =~= sync_json(
            cfg.id@,
            cfg.device_type@,
            cfg.traits@,
            cfg.name@,
            cfg.will_report_state,
        ));
    }
    out
}

/// The configuration the device ships with: empty network credentials
/// and the stock identity of the fan appliance.
pub fn default_config() -> (cfg: Config)
    ensures
        cfg.wifi_ssid@ == ""@,
        cfg.wifi_psk@ == ""@,
        cfg.id@ == "12345"@,
        cfg.device_type@ == "action.devices.types.FAN"@,
        cfg.traits@.len() == 2,
        cfg.traits@[0]@ == "action.devices.traits.OnOff"@,
        cfg.traits@[1]@ == "action.devices.traits.FanSpeed"@,
        cfg.name@ == "Fan"@,
        cfg.will_report_state == false,
{
    let mut traits: Vec<String> = Vec::new();
    traits.push("action.devices.traits.OnOff".to_owned());
    traits.push("action.devices.traits.FanSpeed".to_owned());
    Config {
        wifi_ssid: "".to_owned(),
        wifi_psk: "".to_owned(),
        id: "12345".to_owned(),
        device_type: "action.devices.types.FAN".to_owned(),
        traits: traits,
        name: "Fan".to_owned(),
        will_report_state: false,
    }
}

} // verus!
