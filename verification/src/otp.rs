//! Passcode and provider extraction from message text.

use crate::pattern::{
    capture_group, opt_view, opt_views, regex_capture, regex_strip, strip_first_match,
};
use crate::text::{
    chars_of, contains, contains_char, find_char, first_index, has_infix, has_prefix, joined,
    lowercase, lowercase_of, same_chars, starts_with, string_of_range, trim, trim_text,
    uppercase, uppercase_of,
};
use vstd::prelude::*;
use vstd::string::StringExecFns;
use vstd::utf8::encode_utf8;

verus! {

/// A keyword, then a colon or whitespace, then the code.
pub const PATTERN_KEYWORD_THEN_CODE: &'static str =
    r"(?i)(?:code|verification|otp|pin)[:\s]+(\d{4,8})";

/// The code, then "is your code" or a variant of it.
pub const PATTERN_CODE_IS_YOUR: &'static str =
    r"(?i)(\d{4,8})\s+(?:is\s+)?your\s+(?:code|otp|verification|pin)";

/// "your code is", then the code.
pub const PATTERN_YOUR_CODE_IS: &'static str =
    r"(?i)your\s+(?:code|otp|verification|pin)\s+(?:is[:\s]+)?(\d{4,8})";

/// "enter", the code, "to verify".
pub const PATTERN_ENTER_TO_VERIFY: &'static str =
    r"(?i)enter[:\s]+(\d{4,8})\s+to\s+(?:verify|confirm)";

/// Three digits, a hyphen, three digits.
pub const PATTERN_HYPHENATED: &'static str = r"(?i)\b(\d{3}-\d{3})\b";

/// A bare run of four to eight digits that stands alone.
pub const PATTERN_BARE_DIGITS: &'static str = r"\b(\d{4,8})\b";

/// The pattern rules in the order in which they are tried: the contextual
/// ones first, the bare digits last.
pub open spec fn otp_patterns() -> Seq<Seq<char>> {
    seq![
        PATTERN_KEYWORD_THEN_CODE@,
        PATTERN_CODE_IS_YOUR@,
        PATTERN_YOUR_CODE_IS@,
        PATTERN_ENTER_TO_VERIFY@,
        PATTERN_HYPHENATED@,
        PATTERN_BARE_DIGITS@,
    ]
}

/// The first candidate that is present, if any is.
pub open spec fn first_present(candidates: Seq<Option<Seq<char>>>) -> Option<Seq<char>>
    decreases candidates.len(),
{
    if candidates.len() == 0 {
        None
    } else if candidates[0] is Some {
        candidates[0]
    } else {
        first_present(candidates.skip(1))
    }
}

/// What each rule captures in `text`, rule by rule.
pub open spec fn otp_candidates(text: Seq<char>) -> Seq<Option<Seq<char>>> {
    otp_patterns().map_values(|p: Seq<char>| regex_capture(p, text))
}

/// The passcode in `text`: what the first matching rule captures.
pub open spec fn otp_of(text: Seq<char>) -> Option<Seq<char>> {
    first_present(otp_candidates(text))
}

/// Picks the capture of the first rule that matched.
pub fn first_code(candidates: Vec<Option<String>>) -> (code: Option<String>)
    ensures
        opt_view(code) == first_present(opt_views(candidates@)),
{
    let ghost all = opt_views(candidates@);
    assert(all.skip(0) == all);
    let mut rest = candidates;
    let mut i: usize = 0;
    let n = rest.len();
    while i < n
        invariant
            i <= n == rest.len(),
            all == opt_views(candidates@),
            rest@.len() == all.len(),
            forall|j: int| i <= j < n ==> opt_view(#[trigger] rest@[j]) == all[j],
            first_present(all) == first_present(all.skip(i as int)),
        decreases n - i,
    {
        let mut taken: Option<String> = None;
        std::mem::swap(&mut taken, &mut rest[i]);
        assert(opt_view(taken) == all[i as int]);
        assert(all.skip(i as int)[0] == all[i as int]);
        if taken.is_some() {
            return taken;
        }
        assert(all.skip(i as int).skip(1) == all.skip(i + 1));
        i += 1;
    }
    None
}

/// Finds the one-time passcode in `text`.
///
/// The rules are tried in order and the first one that matches decides: the
/// result is what it captured. `None` when no rule matches.
pub fn extract_otp(text: &str) -> (code: Option<String>)
    ensures
        opt_view(code) == otp_of(text@),
{
    let mut candidates: Vec<Option<String>> = Vec::new();
    candidates.push(capture_group(PATTERN_KEYWORD_THEN_CODE, text));
    candidates.push(capture_group(PATTERN_CODE_IS_YOUR, text));
    candidates.push(capture_group(PATTERN_YOUR_CODE_IS, text));
    candidates.push(capture_group(PATTERN_ENTER_TO_VERIFY, text));
    candidates.push(capture_group(PATTERN_HYPHENATED, text));
    candidates.push(capture_group(PATTERN_BARE_DIGITS, text));
    assert(opt_views(candidates@) =~= otp_candidates(text@));
    first_code(candidates)
}

/// The part of a sender before the first `<` or `@`.
pub const PATTERN_NAME_PORTION: &'static str = r"^([^<@]+)";

/// A transactional word with the whitespace around it.
pub const PATTERN_TRANSACTIONAL_WORD: &'static str =
    r"\s*(no-?reply|noreply|support|security|verify|verification|accounts?|team|notifications?)\s*";

/// The label that follows `@`, up to the first `.` or `>`.
pub const PATTERN_DOMAIN_LABEL: &'static str = r"@([^.>]+)";

/// A derived label must take fewer bytes than this.
pub const LABEL_CAP: usize = 30;

/// What is returned when nothing can be derived from the sender.
pub const UNKNOWN_PROVIDER: &'static str = "Unknown";

/// The known providers: a key to look for and the label to show, in the
/// order in which they are tried.
pub open spec fn provider_table() -> Seq<(Seq<char>, Seq<char>)> {
    seq![
        ("google"@, "Google"@),
        ("gmail"@, "Google"@),
        ("apple"@, "Apple"@),
        ("microsoft"@, "Microsoft"@),
        ("outlook"@, "Microsoft"@),
        ("amazon"@, "Amazon"@),
        ("facebook"@, "Facebook"@),
        ("meta"@, "Meta"@),
        ("instagram"@, "Instagram"@),
        ("twitter"@, "Twitter"@),
        ("x.com"@, "X"@),
        ("github"@, "GitHub"@),
        ("linkedin"@, "LinkedIn"@),
        ("paypal"@, "PayPal"@),
        ("stripe"@, "Stripe"@),
        ("venmo"@, "Venmo"@),
        ("cashapp"@, "Cash App"@),
        ("square"@, "Square"@),
        ("coinbase"@, "Coinbase"@),
        ("binance"@, "Binance"@),
        ("robinhood"@, "Robinhood"@),
        ("chase"@, "Chase"@),
        ("wellsfargo"@, "Wells Fargo"@),
        ("bankofamerica"@, "Bank of America"@),
        ("aws"@, "AWS"@),
        ("heroku"@, "Heroku"@),
        ("digitalocean"@, "DigitalOcean"@),
        ("cloudflare"@, "Cloudflare"@),
        ("shopify"@, "Shopify"@),
        ("ebay"@, "eBay"@),
        ("etsy"@, "Etsy"@),
        ("doordash"@, "DoorDash"@),
        ("grubhub"@, "Grubhub"@),
        ("postmates"@, "Postmates"@),
        ("uber"@, "Uber"@),
        ("lyft"@, "Lyft"@),
        ("spotify"@, "Spotify"@),
        ("netflix"@, "Netflix"@),
        ("notion"@, "Notion"@),
        ("figma"@, "Figma"@),
        ("canva"@, "Canva"@),
        ("zoom"@, "Zoom"@),
        ("webex"@, "Webex"@),
        ("asana"@, "Asana"@),
        ("trello"@, "Trello"@),
        ("airbnb"@, "Airbnb"@),
        ("twilio"@, "Twilio"@),
        ("auth0"@, "Auth0"@),
        ("okta"@, "Okta"@),
        ("dropbox"@, "Dropbox"@),
        ("slack"@, "Slack"@),
        ("discord"@, "Discord"@),
        ("salesforce"@, "Salesforce"@),
        ("atlassian"@, "Atlassian"@),
        ("jira"@, "Jira"@),
        ("adobe"@, "Adobe"@),
        ("oracle"@, "Oracle"@),
        ("namecheap"@, "Namecheap"@),
        ("godaddy"@, "GoDaddy"@),
    ]
}

/// The keys and labels of a table held as string pairs.
pub open spec fn table_view(t: Seq<(&'static str, &'static str)>) -> Seq<(Seq<char>, Seq<char>)> {
    Seq::new(t.len(), |i: int| (t[i].0@, t[i].1@))
}

/// The domain of a lowercased sender: what follows the first `@`, or the
/// whole sender when it holds none.
pub open spec fn domain_of(lower: Seq<char>) -> Seq<char> {
    match first_index(lower, '@') {
        Some(i) => lower.skip(i + 1),
        None => lower,
    }
}

/// Whether `key` names the domain. A key with a dot in it must be the whole
/// domain. Any other key must start the domain or start one of its
/// components.
pub open spec fn domain_matches(key: Seq<char>, domain: Seq<char>) -> bool {
    if key.contains('.') {
        domain == key
    } else {
        has_prefix(domain, key) || has_infix(domain, seq!['.'] + key)
    }
}

/// Whether `key` shows in the sender as a whole: at its start, or as a word
/// followed by a space.
pub open spec fn sender_matches(key: Seq<char>, lower: Seq<char>) -> bool {
    has_infix(lower, key.push(' ')) || has_prefix(lower, key)
}

/// The label of the first entry of `table` whose key names the domain or
/// shows in the sender.
pub open spec fn table_label(
    table: Seq<(Seq<char>, Seq<char>)>,
    domain: Seq<char>,
    lower: Seq<char>,
) -> Option<Seq<char>>
    decreases table.len(),
{
    if table.len() == 0 {
        None
    } else if domain_matches(table[0].0, domain) || sender_matches(table[0].0, lower) {
        Some(table[0].1)
    } else {
        table_label(table.skip(1), domain, lower)
    }
}

/// Whether `s` can serve as a label: not empty, and under the cap in bytes.
pub open spec fn fits_label(s: Seq<char>) -> bool {
    s.len() > 0 && encode_utf8(s).len() < LABEL_CAP
}

/// The label taken from the name portion of a sender: `stripped`, trimmed,
/// when it fits, else `name` when it fits. `stripped` is `name` with the
/// first transactional word taken out.
pub open spec fn name_label(name: Seq<char>, stripped: Seq<char>) -> Option<Seq<char>> {
    if fits_label(trim(stripped)) {
        Some(trim(stripped))
    } else if fits_label(name) {
        Some(name)
    } else {
        None
    }
}

/// The label derived from the name portion of `sender`, if it has one.
pub open spec fn sender_name_label(sender: Seq<char>) -> Option<Seq<char>> {
    match regex_capture(PATTERN_NAME_PORTION@, sender) {
        Some(portion) => name_label(
            trim(portion),
            regex_strip(PATTERN_TRANSACTIONAL_WORD@, trim(portion)),
        ),
        None => None,
    }
}

/// `label` with its first character in uppercase; `None` for an empty label.
pub open spec fn capitalized(label: Seq<char>) -> Option<Seq<char>> {
    if label.len() > 0 {
        Some(uppercase_of(label[0]) + label.skip(1))
    } else {
        None
    }
}

/// The label derived from the domain of `sender`, if it has one.
pub open spec fn sender_domain_label(sender: Seq<char>) -> Option<Seq<char>> {
    match regex_capture(PATTERN_DOMAIN_LABEL@, sender) {
        Some(label) => capitalized(label),
        None => None,
    }
}

/// The provider shown for `sender`.
pub open spec fn provider_of(sender: Seq<char>) -> Seq<char> {
    let lower = lowercase_of(sender);
    match table_label(provider_table(), domain_of(lower), lower) {
        Some(label) => label,
        None => match sender_name_label(sender) {
            Some(label) => label,
            None => match sender_domain_label(sender) {
                Some(label) => label,
                None => UNKNOWN_PROVIDER@,
            },
        },
    }
}

/// The name shown for `sender`: its name portion, trimmed, or the sender
/// itself when it has none.
pub open spec fn sender_name_of(sender: Seq<char>) -> Seq<char> {
    match regex_capture(PATTERN_NAME_PORTION@, sender) {
        Some(portion) => trim(portion),
        None => sender,
    }
}

/// The table of known providers.
pub fn provider_entries() -> (t: Vec<(&'static str, &'static str)>)
    ensures
        table_view(t@) == provider_table(),
{
    let mut t: Vec<(&'static str, &'static str)> = Vec::new();
    t.push(("google", "Google"));
    t.push(("gmail", "Google"));
    t.push(("apple", "Apple"));
    t.push(("microsoft", "Microsoft"));
    t.push(("outlook", "Microsoft"));
    t.push(("amazon", "Amazon"));
    t.push(("facebook", "Facebook"));
    t.push(("meta", "Meta"));
    t.push(("instagram", "Instagram"));
    t.push(("twitter", "Twitter"));
    t.push(("x.com", "X"));
    t.push(("github", "GitHub"));
    t.push(("linkedin", "LinkedIn"));
    t.push(("paypal", "PayPal"));
    t.push(("stripe", "Stripe"));
    t.push(("venmo", "Venmo"));
    t.push(("cashapp", "Cash App"));
    t.push(("square", "Square"));
    t.push(("coinbase", "Coinbase"));
    t.push(("binance", "Binance"));
    t.push(("robinhood", "Robinhood"));
    t.push(("chase", "Chase"));
    t.push(("wellsfargo", "Wells Fargo"));
    t.push(("bankofamerica", "Bank of America"));
    t.push(("aws", "AWS"));
    t.push(("heroku", "Heroku"));
    t.push(("digitalocean", "DigitalOcean"));
    t.push(("cloudflare", "Cloudflare"));
    t.push(("shopify", "Shopify"));
    t.push(("ebay", "eBay"));
    t.push(("etsy", "Etsy"));
    t.push(("doordash", "DoorDash"));
    t.push(("grubhub", "Grubhub"));
    t.push(("postmates", "Postmates"));
    t.push(("uber", "Uber"));
    t.push(("lyft", "Lyft"));
    t.push(("spotify", "Spotify"));
    t.push(("netflix", "Netflix"));
    t.push(("notion", "Notion"));
    t.push(("figma", "Figma"));
    t.push(("canva", "Canva"));
    t.push(("zoom", "Zoom"));
    t.push(("webex", "Webex"));
    t.push(("asana", "Asana"));
    t.push(("trello", "Trello"));
    t.push(("airbnb", "Airbnb"));
    t.push(("twilio", "Twilio"));
    t.push(("auth0", "Auth0"));
    t.push(("okta", "Okta"));
    t.push(("dropbox", "Dropbox"));
    t.push(("slack", "Slack"));
    t.push(("discord", "Discord"));
    t.push(("salesforce", "Salesforce"));
    t.push(("atlassian", "Atlassian"));
    t.push(("jira", "Jira"));
    t.push(("adobe", "Adobe"));
    t.push(("oracle", "Oracle"));
    t.push(("namecheap", "Namecheap"));
    t.push(("godaddy", "GoDaddy"));
    assert(table_view(t@) =~= provider_table());
    t
}

/// Whether the entry with this key applies to a sender.
pub fn key_applies(key: &Vec<char>, domain: &Vec<char>, lower: &Vec<char>) -> (r: bool)
    ensures
        r == (domain_matches(key@, domain@) || sender_matches(key@, lower@)),
{
    let named = if contains_char(key, '.') {
        same_chars(domain, key)
    } else {
        let mut component: Vec<char> = Vec::new();
        component.push('.');
        let component = joined(&component, key);
        assert(component@ == seq!['.'] + key@);
        starts_with(domain, key) || contains(domain, &component)
    };
    if named {
        return true;
    }
    let mut space: Vec<char> = Vec::new();
    space.push(' ');
    let word = joined(key, &space);
    assert(word@ == key@.push(' '));
    contains(lower, &word) || starts_with(lower, key)
}

/// Looks a lowercased sender up in the table of known providers.
///
/// The entries are tried in order. The first whose key names the sender's
/// domain, or shows in the sender as a whole, gives the label.
pub fn provider_from_table(lower: &str) -> (label: Option<String>)
    ensures
        opt_view(label) == table_label(provider_table(), domain_of(lower@), lower@),
{
    let lower_chars = chars_of(lower);
    let domain: Vec<char> = match find_char(&lower_chars, '@') {
        Some(at) => {
            let mut d: Vec<char> = Vec::new();
            let mut i: usize = at + 1;
            while i < lower_chars.len()
                invariant
                    at < i <= lower_chars.len(),
                    d@ == lower_chars@.subrange(at + 1, i as int),
                decreases lower_chars.len() - i,
            {
                d.push(lower_chars[i]);
                i += 1;
            }
            d
        },
        None => chars_of(lower),
    };
    assert(domain@ == domain_of(lower@));
    let table = provider_entries();
    let ghost full = provider_table();
    assert(full.skip(0) == full);
    let mut i: usize = 0;
    while i < table.len()
        invariant
            i <= table.len(),
            table_view(table@) == full,
            full == provider_table(),
            lower_chars@ == lower@,
            domain@ == domain_of(lower@),
            table_label(full, domain@, lower_chars@) == table_label(
                full.skip(i as int),
                domain@,
                lower_chars@,
            ),
        decreases table.len() - i,
    {
        let key = chars_of(table[i].0);
        assert(full[i as int] == (table@[i as int].0@, table@[i as int].1@));
        assert(full.skip(i as int)[0] == full[i as int]);
        if key_applies(&key, &domain, &lower_chars) {
            return Some(table[i].1.to_owned());
        }
        assert(full.skip(i as int).skip(1) == full.skip(i + 1));
        i += 1;
    }
    None
}

/// Chooses the label taken from the name portion of a sender.
///
/// `name` is the trimmed name portion and `stripped` is `name` with the first
/// transactional word taken out. The trimmed `stripped` is preferred; each
/// must be non-empty and under the cap of 30 bytes to be used.
pub fn label_from_name(name: &str, stripped: &str) -> (label: Option<String>)
    ensures
        opt_view(label) == name_label(name@, stripped@),
{
    let clean = trim_text(stripped);
    if !clean.as_str().is_empty() && clean.as_str().as_bytes().len() < LABEL_CAP {
        return Some(clean);
    }
    if !name.is_empty() && name.as_bytes().len() < LABEL_CAP {
        return Some(name.to_owned());
    }
    None
}

/// `label` with `first` in place of its first character; `None` for an
/// empty label.
pub open spec fn with_first(label: Seq<char>, first: Seq<char>) -> Option<Seq<char>> {
    if label.len() > 0 {
        Some(first + label.skip(1))
    } else {
        None
    }
}

/// Puts `first` in place of the first character of `label`.
pub fn replace_first(label: &Vec<char>, first: String) -> (r: Option<String>)
    ensures
        opt_view(r) == with_first(label@, first@),
{
    if label.len() == 0 {
        return None;
    }
    let mut r = first;
    let rest = string_of_range(label, 1, label.len());
    r.append(rest.as_str());
    assert(label@.subrange(1, label.len() as int) == label@.skip(1));
    Some(r)
}

/// `label` with its first character in uppercase.
pub fn capitalize(label: &str) -> (r: Option<String>)
    ensures
        opt_view(r) == capitalized(label@),
{
    let chars = chars_of(label);
    if chars.len() == 0 {
        return None;
    }
    let first = uppercase(chars[0]);
    replace_first(&chars, first)
}

/// The name in a name portion: the portion, trimmed.
pub fn name_in(portion: Option<String>) -> (name: Option<String>)
    ensures
        opt_view(name) == match opt_view(portion) {
            Some(p) => Some(trim(p)),
            None => None,
        },
{
    match portion {
        Some(p) => Some(trim_text(p.as_str())),
        None => None,
    }
}

/// The name portion of `sender`, trimmed, if it has one.
fn name_portion(sender: &str) -> (name: Option<String>)
    ensures
        opt_view(name) == match regex_capture(PATTERN_NAME_PORTION@, sender@) {
            Some(portion) => Some(trim(portion)),
            None => None,
        },
{
    name_in(capture_group(PATTERN_NAME_PORTION, sender))
}

/// Names the provider behind a sender.
///
/// The lowercased sender is looked up in the table of known providers. When
/// no entry applies, the label is derived from the sender's name portion,
/// then from its domain, and is `"Unknown"` when neither gives one.
pub fn extract_provider(sender: &str) -> (provider: String)
    ensures
        provider@ == provider_of(sender@),
{
    let lower = lowercase(sender);
    if let Some(label) = provider_from_table(lower.as_str()) {
        return label;
    }
    if let Some(name) = name_portion(sender) {
        let stripped = strip_first_match(PATTERN_TRANSACTIONAL_WORD, name.as_str());
        if let Some(label) = label_from_name(name.as_str(), stripped.as_str()) {
            return label;
        }
    }
    if let Some(domain) = capture_group(PATTERN_DOMAIN_LABEL, sender) {
        if let Some(label) = capitalize(domain.as_str()) {
            return label;
        }
    }
    UNKNOWN_PROVIDER.to_owned()
}

/// The name to show for a sender: its name portion, trimmed, or the sender
/// itself when it has none.
pub fn extract_sender_name(from: &str) -> (name: String)
    ensures
        name@ == sender_name_of(from@),
{
    match name_portion(from) {
        Some(name) => name,
        None => from.to_owned(),
    }
}

} // verus!
