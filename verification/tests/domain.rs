use dhcproto::domain::Domain;
use dhcproto::error::DecodeError;
use std::str::FromStr;
use trust_dns_proto::rr::Name;

#[test]
fn domain_holds_a_name() {
    let name = Name::from_str("www.example.com.").unwrap();
    let mut domain = Domain::new(name.clone());
    assert_eq!(domain.as_ref(), &name);
    assert_eq!(Name::from(domain.clone()), name);
    assert_eq!(Domain::from(name.clone()), domain);
    domain.as_mut().set_fqdn(false);
    assert!(!domain.as_ref().is_fqdn());
    assert_eq!(domain.to_text(), "www.example.com");
}

#[test]
fn domain_text_is_the_presentation_form() {
    let domain = Domain::new(Name::from_str("WWW.Example.COM.").unwrap());
    assert_eq!(domain.to_text(), "www.example.com.");
    assert_eq!(Domain::new(Name::root()).to_text(), ".");
}

#[test]
fn domain_parses_text() {
    let domain = Domain::parse("host.example.org.").unwrap();
    assert_eq!(domain.as_ref(), &Name::from_str("host.example.org.").unwrap());
    assert_eq!(domain.to_text(), "host.example.org.");
    assert_eq!(Domain::parse(&domain.to_text()), Ok(domain));
}

#[test]
fn domain_rejects_what_is_no_name() {
    assert_eq!(
        Domain::parse("not a name"),
        Err(DecodeError::Message("unable to parse string into Name".to_string()))
    );
    let label = "a".repeat(64);
    assert!(Domain::parse(&label).is_err());
}
