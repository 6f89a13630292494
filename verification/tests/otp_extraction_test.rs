use otpbar::otp;

#[test]
fn test_extract_otp_code_prefix() {
    let cases = [
        ("Your code is 123456", "123456"),
        ("CODE: 987654", "987654"),
        ("Verification code: 456789", "456789"),
        ("OTP 1234", "1234"),
        ("PIN: 567890", "567890"),
    ];

    for (text, expected) in cases {
        assert_eq!(otp::extract_otp(text), Some(expected.to_string()));
    }
}

#[test]
fn test_extract_otp_your_code_suffix() {
    let cases = [
        ("123456 is your code", "123456"),
        ("789012 is your verification code", "789012"),
        ("345678 is your OTP", "345678"),
        ("901234 is your pin", "901234"),
    ];

    for (text, expected) in cases {
        assert_eq!(otp::extract_otp(text), Some(expected.to_string()));
    }
}

#[test]
fn test_extract_otp_your_code_prefix() {
    let cases = [
        ("Your code is 123456", "123456"),
        ("Your otp is 789012", "789012"),
        ("Your verification code: 345678", "345678"),
        ("Your pin is 901234", "901234"),
    ];

    for (text, expected) in cases {
        assert_eq!(otp::extract_otp(text), Some(expected.to_string()));
    }
}

#[test]
fn test_extract_otp_enter_to_verify() {
    let cases = [
        ("Enter 123456 to verify", "123456"),
        ("Enter 789012 to confirm", "789012"),
    ];

    for (text, expected) in cases {
        assert_eq!(otp::extract_otp(text), Some(expected.to_string()));
    }
}

#[test]
fn test_extract_otp_hyphenated() {
    assert_eq!(
        otp::extract_otp("Your code is 123-456"),
        Some("123-456".to_string())
    );
}

#[test]
fn test_extract_otp_six_digits() {
    let cases = [
        ("Use 123456 to complete", "123456"),
        ("Code: 789012 now", "789012"),
    ];

    for (text, expected) in cases {
        assert_eq!(otp::extract_otp(text), Some(expected.to_string()));
    }
}

#[test]
fn test_extract_otp_case_insensitive() {
    let cases = [
        ("YOUR CODE IS 123456", "123456"),
        ("Your Code Is 789012", "789012"),
        ("code: 345678", "345678"),
        ("CODE 901234", "901234"),
    ];

    for (text, expected) in cases {
        assert_eq!(otp::extract_otp(text), Some(expected.to_string()));
    }
}

#[test]
fn test_extract_otp_no_match() {
    let cases = [
        "Hello world",
        "No numbers here",
        "Only 12 numbers",
        "Code is 123",        // Too short
        "Code is 1234567890", // Too long
    ];

    for text in cases {
        assert_eq!(otp::extract_otp(text), None, "Should not match: {}", text);
    }
}

#[test]
fn test_extract_otp_real_world_examples() {
    let cases = [
        ("Your Google verification code is 123456", "123456"),
        ("123456 is your Amazon verification code", "123456"),
        ("Use code 789012 to verify your identity", "789012"),
        ("Your verification code is: 345678", "345678"),
        ("Enter 901234 to verify your account", "901234"),
    ];

    for (text, expected) in cases {
        assert_eq!(otp::extract_otp(text), Some(expected.to_string()));
    }
}

#[test]
fn test_extract_provider_known_services() {
    let cases = [
        ("account-security@google.com", "Google"),
        ("noreply@accounts.google.com", "Google"),
        ("no-reply@apple.com", "Apple"),
        ("accounts@microsoft.com", "Microsoft"),
        ("verify@amazon.com", "Amazon"),
        ("security@facebook.com", "Facebook"),
        ("github@noreply.github.com", "GitHub"),
        ("notifications@linkedin.com", "LinkedIn"),
        ("service@paypal.com", "PayPal"),
        ("support@stripe.com", "Stripe"),
        ("venmo@venmo.com", "Venmo"),
        ("cashapp@squareup.com", "Cash App"),
        ("coinbase@coinbase.com", "Coinbase"),
        ("binance@binance.com", "Binance"),
        ("robinhood@robinhood.com", "Robinhood"),
        ("security-noreply@aws.amazon.com", "Amazon"), // amazon pattern matches first
        ("notify@heroku.com", "Heroku"),
        ("cloudflare@cloudflare.com", "Cloudflare"),
        ("shopify@shopify.com", "Shopify"),
        ("ebay@ebay.com", "eBay"),
        ("etsy@etsy.com", "Etsy"),
        ("uber@uber.com", "Uber"),
        ("spotify@spotify.com", "Spotify"),
        ("netflix@netflix.com", "Netflix"),
        ("team@notion.so", "Notion"),
        ("support@figma.com", "Figma"),
        ("zoom@zoom.us", "Zoom"),
        ("slack@slack.com", "Slack"),
        ("discord@discord.com", "Discord"),
        ("adobe@adobe.com", "Adobe"),
        ("salesforce@salesforce.com", "Salesforce"),
        ("atlassian@atlassian.com", "Atlassian"),
        // jira pattern matches after atlassian - atlassian wins due to order
        ("jira@atlassian.com", "Atlassian"),
        ("dropbox@dropbox.com", "Dropbox"),
        ("auth0@auth0.com", "Auth0"),
        ("okta@okta.com", "Okta"),
    ];

    for (sender, expected) in cases {
        assert_eq!(
            otp::extract_provider(sender),
            expected,
            "Failed for: {}",
            sender
        );
    }
}

#[test]
fn test_extract_provider_from_name() {
    let cases = [
        ("GitHub <noreply@github.com>", "GitHub"),
        ("Google <no-reply@accounts.google.com>", "Google"),
        ("Amazon Security <verify@amazon.com>", "Amazon"),
    ];

    for (sender, expected) in cases {
        assert_eq!(otp::extract_provider(sender), expected);
    }
}

#[test]
fn test_extract_provider_no_reply_fallback() {
    // noreply gets cleaned away, so the name as it stands is returned
    let result = otp::extract_provider("noreply@example.com");
    assert_eq!(result, "noreply");
}

#[test]
fn test_extract_provider_unknown_fallback() {
    // Unknown domain returns the name part (lowercased from email)
    assert_eq!(otp::extract_provider("unknown@unknown.xyz"), "unknown");
}

#[test]
fn test_extract_provider_twitter_rebrand() {
    assert_eq!(otp::extract_provider("support@x.com"), "X");
}

#[test]
fn test_extract_provider_banks() {
    let cases = [
        ("alerts@chase.com", "Chase"),
        ("wellsfargo@wellsfargo.com", "Wells Fargo"),
        ("bankofamerica@bankofamerica.com", "Bank of America"),
    ];

    for (sender, expected) in cases {
        assert_eq!(otp::extract_provider(sender), expected);
    }
}

#[test]
fn test_extract_provider_food_delivery() {
    let cases = [
        ("doordash@doordash.com", "DoorDash"),
        ("grubhub@grubhub.com", "Grubhub"),
        ("ubereats@uber.com", "Uber"),
        ("lyft@lyft.com", "Lyft"),
    ];

    for (sender, expected) in cases {
        assert_eq!(otp::extract_provider(sender), expected);
    }
}

#[test]
fn extract_otp_too_long_is_rejected() {
    assert_eq!(otp::extract_otp("Code is 1234567890"), None);
    assert_eq!(otp::extract_otp("Only 12 numbers"), None);
}

#[test]
fn extract_otp_contextual_rule_precedes_bare_digits() {
    // The bare six digits come first in the text, the labelled code later:
    // the contextual rule decides.
    assert_eq!(
        otp::extract_otp("Order 111111 shipped. Your code: 2468"),
        Some("2468".to_string())
    );
}

#[test]
fn extract_otp_empty_text() {
    assert_eq!(otp::extract_otp(""), None);
}

#[test]
fn first_code_takes_first_present() {
    assert_eq!(
        otp::first_code(vec![None, Some("1".to_string()), Some("2".to_string())]),
        Some("1".to_string())
    );
    assert_eq!(otp::first_code(vec![None, None]), None);
    assert_eq!(otp::first_code(vec![]), None);
}

#[test]
fn extract_provider_spec_examples() {
    assert_eq!(otp::extract_provider("noreply@github.com"), "GitHub");
    assert_eq!(
        otp::extract_provider("Amazon Security <verify@amazon.com>"),
        "Amazon"
    );
    let derived = otp::extract_provider("unknown@unknown.xyz");
    assert_ne!(derived, "Unknown");
    assert_eq!(otp::extract_provider(""), "Unknown");
}

#[test]
fn extract_provider_lowercases_sender() {
    assert_eq!(otp::extract_provider("NOREPLY@GITHUB.COM"), "GitHub");
}

#[test]
fn extract_provider_strips_transactional_word() {
    assert_eq!(otp::extract_provider("Acme support <hello@acme.io>"), "Acme");
}

#[test]
fn extract_provider_keeps_name_when_nothing_is_left() {
    assert_eq!(otp::extract_provider("support <hello@acme.io>"), "support");
}

#[test]
fn extract_provider_capitalizes_domain_label() {
    assert_eq!(otp::extract_provider("<hello@zebra.io>"), "Zebra");
}

#[test]
fn extract_provider_name_over_cap_falls_back_to_domain() {
    let sender = "An Extremely Long Display Name Indeed <hello@zebra.io>";
    assert_eq!(otp::extract_provider(sender), "Zebra");
}

#[test]
fn extract_provider_dotted_key_needs_whole_domain() {
    assert_eq!(otp::extract_provider("support@x.com"), "X");
    // A sub-domain of the dotted key is not the key itself.
    assert_eq!(otp::extract_provider("hello@mail.x.com"), "hello");
}

#[test]
fn provider_from_table_order_decides() {
    assert_eq!(
        otp::provider_from_table("security-noreply@aws.amazon.com"),
        Some("Amazon".to_string())
    );
    assert_eq!(otp::provider_from_table("hello@acme.io"), None);
    assert_eq!(
        otp::provider_from_table("github <x@example.org>"),
        Some("GitHub".to_string())
    );
}

#[test]
fn label_from_name_prefers_stripped() {
    assert_eq!(
        otp::label_from_name("Acme support", "Acme"),
        Some("Acme".to_string())
    );
    assert_eq!(
        otp::label_from_name("support", "  "),
        Some("support".to_string())
    );
    assert_eq!(otp::label_from_name("", ""), None);
    let long = "123456789012345678901234567890";
    assert_eq!(long.len(), 30);
    assert_eq!(otp::label_from_name(long, long), None);
    let fits = "12345678901234567890123456789";
    assert_eq!(otp::label_from_name(fits, ""), Some(fits.to_string()));
}

#[test]
fn capitalize_first_character() {
    assert_eq!(otp::capitalize("zebra"), Some("Zebra".to_string()));
    assert_eq!(otp::capitalize(""), None);
}

#[test]
fn extract_sender_name_takes_name_portion() {
    assert_eq!(otp::extract_sender_name("GitHub <noreply@github.com>"), "GitHub");
    assert_eq!(otp::extract_sender_name("noreply@github.com"), "noreply");
    assert_eq!(otp::extract_sender_name("<noreply@github.com>"), "<noreply@github.com>");
}

#[test]
fn provider_entries_are_in_table_order() {
    let table = otp::provider_entries();
    assert_eq!(table.len(), 59);
    assert_eq!(table[0], ("google", "Google"));
    assert_eq!(table[10], ("x.com", "X"));
    assert_eq!(table[58], ("godaddy", "GoDaddy"));
}

#[test]
fn replace_first_character() {
    let label: Vec<char> = "strasse".chars().collect();
    assert_eq!(otp::replace_first(&label, "SS".to_string()), Some("SStrasse".to_string()));
    assert_eq!(otp::replace_first(&Vec::new(), "X".to_string()), None);
    // A character whose uppercase form is two characters.
    assert_eq!(otp::capitalize("ßeta"), Some("SSeta".to_string()));
}

#[test]
fn name_in_trims_portion() {
    assert_eq!(otp::name_in(Some("  GitHub  ".to_string())), Some("GitHub".to_string()));
    assert_eq!(otp::name_in(Some("   ".to_string())), Some(String::new()));
    assert_eq!(otp::name_in(None), None);
}

#[test]
fn extract_otp_bare_fallback_takes_four_to_eight_digits() {
    let cases = [
        ("Use 1234 to complete", "1234"),
        ("Use 12345 to complete", "12345"),
        ("Use 123456 to complete", "123456"),
        ("Use 1234567 to complete", "1234567"),
        ("Use 12345678 to complete", "12345678"),
        ("4821", "4821"),
    ];
    for (text, expected) in cases {
        assert_eq!(otp::extract_otp(text), Some(expected.to_string()), "{}", text);
    }
    // Too short, too long, or not standing alone.
    for text in ["Use 123 to complete", "Use 123456789 to complete", "ref1234x", "abc12345"] {
        assert_eq!(otp::extract_otp(text), None, "{}", text);
    }
}

#[test]
fn extract_otp_hyphenated_precedes_bare_digits() {
    assert_eq!(
        otp::extract_otp("Ticket 5555 and 123-456"),
        Some("123-456".to_string())
    );
}
