use tracing_etw::guid::Guid;
use tracing_etw::layer::{
    CallsiteInterest, ConfigError, EtwLayer, ProviderGroup, ProviderRequest,
};

const MY_PROVIDER: u128 = 0xb3864c38_4273_58c5_545b_8b3608343471;

fn guid(value: u128) -> Guid {
    Guid {
        bytes: value.to_be_bytes(),
    }
}

fn created<'a>(
    outcome: Result<Option<ProviderRequest<'a>>, ConfigError>,
) -> Option<ProviderRequest<'a>> {
    match outcome {
        Ok(request) => request,
        Err(error) => panic!("refused: {}", error.message()),
    }
}

#[test]
fn new_layer_has_the_id_of_its_name() {
    let layer = EtwLayer::new("MyProvider");
    assert_eq!(layer.provider_name, "MyProvider");
    assert_eq!(layer.get_provider_id(), guid(MY_PROVIDER));
    assert!(matches!(layer.provider_group, ProviderGroup::Unset));
    assert!(!layer.emit_common_schema_events);
}

#[test]
fn id_of_a_name_is_that_of_tracelogging() {
    for name in ["", "a", "MyProvider", "myprovider", "Stra\u{df}e"] {
        assert_eq!(
            Guid::from_name(name).bytes,
            tracelogging::Guid::from_name(name).to_bytes_be()
        );
    }
    assert_eq!(Guid::from_name("myPROVIDER"), guid(MY_PROVIDER));
}

#[test]
fn zero_guid_has_no_bit_set() {
    assert_eq!(Guid::zero().bytes, [0; 16]);
    assert!(Guid::zero().same(&guid(0)));
    assert!(!Guid::zero().same(&guid(1)));
    assert!(!Guid::zero().same(&guid(1 << 127)));
}

#[test]
fn name_and_id_can_be_given() {
    let layer = EtwLayer::with_name_and_id("n", guid(5));
    assert_eq!(layer.provider_name, "n");
    assert_eq!(layer.get_provider_id(), guid(5));
    assert!(matches!(layer.provider_group, ProviderGroup::Unset));
    assert!(!layer.emit_common_schema_events);
}

#[test]
fn assigned_id_replaces_the_one_of_the_name() {
    let layer = EtwLayer::new("MyProvider").with_provider_id(guid(42));
    assert_eq!(layer.get_provider_id(), guid(42));
    assert_eq!(layer.provider_name, "MyProvider");
    let request = created(layer.on_register_dispatch::<u8>(None)).unwrap();
    assert_eq!(request.id, guid(42));
}

#[test]
fn read_id_is_the_one_created() {
    let named = EtwLayer::new("MyProvider");
    let request = created(named.on_layer::<u8>(None)).unwrap();
    assert_eq!(request.id, named.get_provider_id());
    let assigned = named.with_provider_id(guid(1)).with_provider_id(guid(2));
    assert_eq!(assigned.get_provider_id(), guid(2));
    let request = created(assigned.on_register_dispatch::<u8>(None)).unwrap();
    assert_eq!(request.id, guid(2));
}

#[test]
fn common_schema_events_can_be_turned_on() {
    let layer = EtwLayer::new("p").with_common_schema_events();
    assert!(layer.emit_common_schema_events);
    assert!(layer.with_common_schema_events().emit_common_schema_events);
}

#[test]
fn options_do_not_touch_each_other() {
    let a = EtwLayer::new("p")
        .with_provider_id(guid(1))
        .with_common_schema_events()
        .with_provider_group("g");
    let b = EtwLayer::new("p")
        .with_provider_group("g")
        .with_common_schema_events()
        .with_provider_id(guid(1));
    for layer in [a, b] {
        assert_eq!(layer.provider_name, "p");
        assert_eq!(layer.provider_id, guid(1));
        assert!(layer.emit_common_schema_events);
        assert!(matches!(&layer.provider_group, ProviderGroup::Linux(name) if name == "g"));
    }
}

#[test]
fn groups_are_named_by_id_or_by_string() {
    let layer = EtwLayer::new("p").with_provider_group(guid(9));
    assert!(matches!(layer.provider_group, ProviderGroup::Windows(g) if g == guid(9)));
    let layer = layer.with_provider_group("abc");
    assert!(matches!(&layer.provider_group, ProviderGroup::Linux(name) if name == "abc"));
}

#[test]
fn zero_group_is_refused() {
    let layer = EtwLayer::new("p").with_provider_group(Guid::zero());
    assert_eq!(layer.validate_config(), Err(ConfigError::ZeroGroup));
    assert_eq!(
        ConfigError::ZeroGroup.message(),
        "Provider GUID must not be zeroes"
    );
    assert!(matches!(
        layer.on_layer::<u8>(None),
        Err(ConfigError::ZeroGroup)
    ));
    let layer = layer.with_provider_group(guid(1));
    assert_eq!(layer.validate_config(), Ok(()));
}

#[test]
fn group_names_are_lower_case_or_digits() {
    for name in ["", "a", "z", "0", "9", "group17"] {
        let layer = EtwLayer::new("p").with_provider_group(name);
        assert_eq!(layer.validate_config(), Ok(()), "{}", name);
    }
    for name in ["A", "aZ", "a-b", "a_b", " ", "`", "{", "/", ":", "\u{e9}", "a\u{131}"] {
        let layer = EtwLayer::new("p").with_provider_group(name);
        assert_eq!(
            layer.validate_config(),
            Err(ConfigError::GroupName),
            "{}",
            name
        );
    }
    assert_eq!(
        ConfigError::GroupName.message(),
        "Provider names must be lower case ASCII or numeric digits"
    );
}

#[test]
fn layer_without_group_is_accepted_whatever_its_name() {
    let layer = EtwLayer::new("Not-An Option!").with_provider_id(Guid::zero());
    assert_eq!(layer.validate_config(), Ok(()));
    assert!(created(layer.on_layer::<u8>(None)).is_some());
}

#[test]
fn provider_is_created_once() {
    let layer = EtwLayer::new("MyProvider").with_provider_group("grp");
    let request = created(layer.on_register_dispatch::<u8>(None)).unwrap();
    assert_eq!(request.name, "MyProvider");
    assert_eq!(request.id, guid(MY_PROVIDER));
    assert!(matches!(request.group, ProviderGroup::Linux(name) if name == "grp"));
    assert!(created(layer.on_register_dispatch(Some(&1u8))).is_none());
    assert!(created(layer.on_layer(Some(&1u8))).is_none());
    assert!(created(layer.on_layer::<u8>(None)).is_some());
}

#[test]
fn provider_stays_set() {
    let layer = EtwLayer::new("p");
    let mut provider: Option<u32> = None;
    for made in [11, 12, 13] {
        if created(layer.on_layer(provider.as_ref())).is_some() {
            provider = Some(made);
        }
        assert_eq!(provider, Some(11));
        if created(layer.on_register_dispatch(provider.as_ref())).is_some() {
            provider = Some(made + 100);
        }
        assert_eq!(provider, Some(11));
        assert_eq!(*layer.enabled(provider.as_ref(), 1).provider, 11);
    }
}

#[test]
fn refusal_does_not_depend_on_the_provider() {
    let layer = EtwLayer::new("p").with_provider_group("UPPER");
    assert!(matches!(
        layer.on_register_dispatch::<u8>(None),
        Err(ConfigError::GroupName)
    ));
    assert!(matches!(
        layer.on_register_dispatch(Some(&1u8)),
        Err(ConfigError::GroupName)
    ));
    assert!(matches!(
        layer.on_layer(Some(&1u8)),
        Err(ConfigError::GroupName)
    ));
}

#[test]
fn provider_is_asked_each_time_for_any_keyword() {
    let layer = EtwLayer::new("p");
    assert_eq!(
        layer.register_callsite(Some(&7u8)),
        CallsiteInterest::Sometimes
    );
    let query = layer.enabled(Some(&7u8), 4);
    assert_eq!(*query.provider, 7);
    assert_eq!(query.level, 4);
    assert_eq!(query.keyword, 0);
    assert!(layer.event_enabled());
}
