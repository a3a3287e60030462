//! Provenance labels for registered credentials.
//!
//! At registration time the client's User-Agent header is condensed into a
//! short human-readable label ("browser - OS - device") that is stored with
//! the credential, so an account's devices can be told apart. The parsing
//! itself is an external capability; the condensing of its parts into the
//! label is verified here.

use uaparser::Parser;
use vstd::prelude::*;
use vstd::string::StringExecFns;

verus! {

/// The external User-Agent parser (a compiled set of family/brand regexes).
#[verifier::external_type_specification]
#[verifier::external_body]
pub struct ExUserAgentParser(uaparser::UserAgentParser);

/// A validated User-Agent header value, as handed over by the transport
/// layer.
pub struct ExtractUserAgent(pub String);

/// The four parts a parser splits a User-Agent string into: browser
/// family, OS family, device brand (empty when unknown) and device
/// family. Regex matching reads no clock and draws no randomness, so the
/// parts are a function of the parser and the string alone.
pub uninterp spec fn spec_parse_user_agent(
    parser: uaparser::UserAgentParser,
    user_agent: Seq<char>,
) -> (Seq<char>, Seq<char>, Seq<char>, Seq<char>);

/// Relies on uaparser::Parser::parse: splits a User-Agent string into the
/// browser family, the OS family, the device brand (empty when unknown)
/// and the device family; deterministic in the parser and the string, so
/// the parts are exactly `spec_parse_user_agent`.
#[verifier::external_body]
fn parse_user_agent(parser: &uaparser::UserAgentParser, user_agent: &str) -> (r: (
    String,
    String,
    String,
    String,
))
    ensures
        ({
            let p = spec_parse_user_agent(*parser, user_agent@);
            r.0@ == p.0 && r.1@ == p.1 && r.2@ == p.2 && r.3@ == p.3
        }),
{
    let ua = parser.parse(user_agent);
    (
        ua.user_agent.family.into_owned(),
        ua.os.family.into_owned(),
        ua.device.brand.map(|b| b.into_owned()).unwrap_or_default(),
        ua.device.family.into_owned(),
    )
}

/// The device part of the label: brand and family, joined by one space,
/// with empty parts left out.
pub open spec fn spec_device_label(brand: Seq<char>, family: Seq<char>) -> Seq<char> {
    if brand.len() == 0 {
        family
    } else if family.len() == 0 {
        brand
    } else {
        brand + " "@ + family
    }
}

/// The full label: browser family, OS family and device part, joined by
/// " - " (all three positions are kept even when empty).
pub open spec fn spec_user_agent_label(
    ua_family: Seq<char>,
    os_family: Seq<char>,
    brand: Seq<char>,
    device_family: Seq<char>,
) -> Seq<char> {
    ua_family + " - "@ + os_family + " - "@ + spec_device_label(brand, device_family)
}

/// Condense the four parsed parts into the stored label.
pub fn user_agent_label(
    ua_family: &String,
    os_family: &String,
    brand: &String,
    device_family: &String,
) -> (r: String)
    ensures
        r@ == spec_user_agent_label(ua_family@, os_family@, brand@, device_family@),
{
    let mut r = ua_family.clone();
    r.append(" - ");
    r.append(os_family.as_str());
    r.append(" - ");
    if brand.as_str().unicode_len() == 0 {
        r.append(device_family.as_str());
    } else if device_family.as_str().unicode_len() == 0 {
        r.append(brand.as_str());
    } else {
        r.append(brand.as_str());
        r.append(" ");
        r.append(device_family.as_str());
    }
    r
}

/// The short provenance label of a User-Agent string: parse (external,
/// deterministic, named), then condense (verified in `user_agent_label`).
/// Equal parser and string give equal labels, in the exact
/// "browser - OS - device" format.
pub fn get_user_agent_string_short(
    user_agent: &str,
    parser: &uaparser::UserAgentParser,
) -> (r: String)
    ensures
        ({
            let p = spec_parse_user_agent(*parser, user_agent@);
            r@ == spec_user_agent_label(p.0, p.1, p.2, p.3)
        }),
{
    let (ua_family, os_family, brand, device_family) = parse_user_agent(parser, user_agent);
    user_agent_label(&ua_family, &os_family, &brand, &device_family)
}

} // verus!
