//! The layer: its configuration, and how its provider is registered and asked.

use crate::guid::guid_bytes_of_name;
use crate::guid::zero_guid_bytes;
use crate::guid::Guid;
use crate::guid::MAX_PROVIDER_NAME_CHARS;
use vstd::prelude::*;

verus! {

/// The keyword with which the provider is asked whether it is enabled.
pub const FILTER_KEYWORD: u64 = 0;

/// The group of providers that a provider joins.
#[derive(Debug)]
pub enum ProviderGroup {
    /// No group.
    Unset,
    /// A group of ETW providers.
    Windows(Guid),
    /// A group of EventHeader providers.
    Linux(String),
}

/// What a group is, apart from where its name is stored.
pub enum ProviderGroupView {
    Unset,
    Windows(Seq<u8>),
    Linux(Seq<char>),
}

impl View for ProviderGroup {
    type V = ProviderGroupView;

    open spec fn view(&self) -> ProviderGroupView {
        match self {
            ProviderGroup::Unset => ProviderGroupView::Unset,
            ProviderGroup::Windows(guid) => ProviderGroupView::Windows(guid@),
            ProviderGroup::Linux(name) => ProviderGroupView::Linux(name@),
        }
    }
}

/// What names a group of providers: an identifier on Windows, a name on Linux.
pub trait GroupKey: Sized {
    /// The group that the key names.
    spec fn named_group(self) -> ProviderGroupView;

    /// Makes the group that the key names.
    fn into_group(self) -> (group: ProviderGroup)
        ensures
            group@ == self.named_group(),
    ;
}

impl GroupKey for Guid {
    open spec fn named_group(self) -> ProviderGroupView {
        ProviderGroupView::Windows(self@)
    }

    fn into_group(self) -> (group: ProviderGroup) {
        ProviderGroup::Windows(self)
    }
}

impl<'a> GroupKey for &'a str {
    open spec fn named_group(self) -> ProviderGroupView {
        ProviderGroupView::Linux(self@)
    }

    fn into_group(self) -> (group: ProviderGroup) {
        ProviderGroup::Linux(self.to_owned())
    }
}

/// Why a configuration is refused.
#[derive(Clone, Copy, Debug, PartialEq, Eq, Structural)]
pub enum ConfigError {
    /// The group's identifier has every bit clear.
    ZeroGroup,
    /// The group's name has a character that is neither a lower-case ASCII
    /// letter nor an ASCII digit.
    GroupName,
}

impl ConfigError {
    /// What is wrong, in words.
    pub fn message(&self) -> (text: &'static str)
        ensures
            text@ == match self {
                ConfigError::ZeroGroup => "Provider GUID must not be zeroes"@,
                ConfigError::GroupName =>
                    "Provider names must be lower case ASCII or numeric digits"@,
            },
    {
        match self {
            ConfigError::ZeroGroup => "Provider GUID must not be zeroes",
            ConfigError::GroupName => "Provider names must be lower case ASCII or numeric digits",
        }
    }
}

/// Whether `c` may stand in the name of an EventHeader provider group.
pub open spec fn is_option_char(c: char) -> bool {
    '0' <= c <= '9' || 'a' <= c <= 'z'
}

/// Whether every character of `name` may stand in the name of a group.
pub open spec fn is_option_value(name: Seq<char>) -> bool {
    forall|i: int| 0 <= i < name.len() ==> is_option_char(#[trigger] name[i])
}

/// What is wrong with a group, if anything is.
pub open spec fn group_error(group: ProviderGroupView) -> Option<ConfigError> {
    match group {
        ProviderGroupView::Unset => None,
        ProviderGroupView::Windows(guid) => if guid == zero_guid_bytes() {
            Some(ConfigError::ZeroGroup)
        } else {
            None
        },
        ProviderGroupView::Linux(name) => if is_option_value(name) {
            None
        } else {
            Some(ConfigError::GroupName)
        },
    }
}

/// Calls `eventheader_dynamic::ProviderOptions::is_valid_option_value`, which is
/// true of a string that holds only ASCII digits and lower-case ASCII letters.
/// It looks at the bytes of the string; a character beyond ASCII has no byte
/// that passes, so the bytes all pass exactly where the characters all do.
#[verifier::external_body]
fn valid_option_value(value: &str) -> (valid: bool)
    ensures
        valid == is_option_value(value@),
{
    eventheader_dynamic::ProviderOptions::is_valid_option_value(value)
}

/// What a provider is to be created from.
pub struct ProviderRequest<'a> {
    pub name: &'a str,
    pub id: Guid,
    pub group: &'a ProviderGroup,
}

/// How often a callsite's events and spans are to be filtered.
#[derive(Clone, Copy, Debug, PartialEq, Eq, Structural)]
pub enum CallsiteInterest {
    /// Never enabled: they are not asked about again.
    Never,
    /// Asked about each time that one of them is created.
    Sometimes,
    /// Always enabled: they are not asked about again.
    Always,
}

/// The question whether a provider takes events of a level and a keyword.
pub struct EnabledQuery<'p, P> {
    pub provider: &'p P,
    pub level: u8,
    pub keyword: u64,
}

/// A `tracing` layer that writes to one ETW or EventHeader provider.
pub struct EtwLayer {
    pub provider_name: String,
    pub provider_id: Guid,
    pub provider_group: ProviderGroup,
    pub emit_common_schema_events: bool,
}

impl EtwLayer {
    /// A layer for the provider named `name`, under the identifier that ETW
    /// tools derive from the name, in no group.
    pub fn new(name: &str) -> (layer: EtwLayer)
        requires
            name@.len() <= MAX_PROVIDER_NAME_CHARS,
        ensures
            layer.provider_name@ == name@,
            layer.provider_id@ == guid_bytes_of_name(name@),
            layer.provider_group == ProviderGroup::Unset,
            layer.emit_common_schema_events == false,
    {
        EtwLayer::with_name_and_id(name, Guid::from_name(name))
    }

    /// A layer for the provider named `name` under the identifier `provider_id`,
    /// in no group.
    pub fn with_name_and_id(name: &str, provider_id: Guid) -> (layer: EtwLayer)
        ensures
            layer.provider_name@ == name@,
            layer.provider_id == provider_id,
            layer.provider_group == ProviderGroup::Unset,
            layer.emit_common_schema_events == false,
    {
        EtwLayer {
            provider_name: name.to_owned(),
            provider_id,
            provider_group: ProviderGroup::Unset,
            emit_common_schema_events: false,
        }
    }

    /// For advanced scenarios.
    /// Assign a provider ID to the ETW provider rather than use
    /// one generated from the provider name.
    pub fn with_provider_id(self, guid: Guid) -> (layer: EtwLayer)
        ensures
            layer == (EtwLayer { provider_id: guid, ..self }),
    {
        let mut layer = self;
        layer.provider_id = guid;
        layer
    }

    /// Get the current provider ID that will be used for the ETW provider.
    /// This is a convenience function to help with tools that do not implement
    /// the standard provider name to ID algorithm.
    pub fn get_provider_id(&self) -> (guid: Guid)
        ensures
            guid == self.provider_id,
    {
        self.provider_id
    }

    /// For advanced scenarios.
    /// Emit extra events that follow the Common Schema 4.0 mapping.
    /// Recommended only for compatibility with specialized event consumers.
    /// Most ETW consumers will not benefit from events in this schema, and
    /// may perform worse.
    /// These events are emitted in addition to the normal ETW events.
    /// Common Schema events are much slower to generate and should not be
    /// enabled unless absolutely necessary.
    pub fn with_common_schema_events(self) -> (layer: EtwLayer)
        ensures
            layer == (EtwLayer { emit_common_schema_events: true, ..self }),
    {
        let mut layer = self;
        layer.emit_common_schema_events = true;
        layer
    }

    /// For advanced scenarios.
    /// Set the provider group to join this provider to: an identifier names a
    /// group of ETW providers, a string a group of EventHeader providers.
    pub fn with_provider_group<G: GroupKey>(self, group: G) -> (layer: EtwLayer)
        ensures
            layer.provider_group@ == group.named_group(),
            layer == (EtwLayer { provider_group: layer.provider_group, ..self }),
    {
        let mut layer = self;
        layer.provider_group = group.into_group();
        layer
    }

    /// Checks that the provider group can be joined.
    pub fn validate_config(&self) -> (checked: Result<(), ConfigError>)
        ensures
            checked == match group_error(self.provider_group@) {
                None => Ok(()),
                Some(error) => Err(error),
            },
    {
        match &self.provider_group {
            ProviderGroup::Unset => Ok(()),
            ProviderGroup::Windows(guid) => {
                if guid.same(&Guid::zero()) {
                    Err(ConfigError::ZeroGroup)
                } else {
                    Ok(())
                }
            },
            ProviderGroup::Linux(name) => {
                if valid_option_value(name.as_str()) {
                    Ok(())
                } else {
                    Err(ConfigError::GroupName)
                }
            },
        }
    }

    /// Whether `outcome` is what registering this layer gives where a provider
    /// is there already, or is not: a refusal where the configuration cannot be
    /// used, and else a request to create the provider if there is none yet.
    pub open spec fn registers(
        &self,
        registered: bool,
        outcome: Result<Option<ProviderRequest<'_>>, ConfigError>,
    ) -> bool {
        match group_error(self.provider_group@) {
            Some(error) => outcome == Err::<Option<ProviderRequest<'_>>, ConfigError>(error),
            None => match outcome {
                Err(_) => false,
                Ok(None) => registered,
                Ok(Some(request)) => {
                    &&& !registered
                    &&& request.name@ == self.provider_name@
                    &&& request.id == self.provider_id
                    &&& *request.group == self.provider_group
                },
            },
        }
    }

    /// Late init when the layer is installed as a subscriber.
    pub fn on_register_dispatch<P>(&self, provider: Option<&P>) -> (outcome: Result<
        Option<ProviderRequest<'_>>,
        ConfigError,
    >)
        ensures
            self.registers(provider is Some, outcome),
    {
        match self.validate_config() {
            Err(error) => Err(error),
            Ok(()) => {
                if provider.is_some() {
                    Ok(None)
                } else {
                    Ok(
                        Some(
                            ProviderRequest {
                                name: self.provider_name.as_str(),
                                id: self.provider_id,
                                group: &self.provider_group,
                            },
                        ),
                    )
                }
            },
        }
    }

    /// Late init when the layer is attached to a subscriber.
    pub fn on_layer<P>(&self, provider: Option<&P>) -> (outcome: Result<
        Option<ProviderRequest<'_>>,
        ConfigError,
    >)
        ensures
            self.registers(provider is Some, outcome),
    {
        self.on_register_dispatch(provider)
    }

    /// How often a callsite's events and spans are to be filtered: each time, so
    /// that the provider is asked each time.
    pub fn register_callsite<P>(&self, provider: Option<&P>) -> (interest: CallsiteInterest)
        requires
            provider is Some,
        ensures
            interest == CallsiteInterest::Sometimes,
    {
        CallsiteInterest::Sometimes
    }

    /// Whom to ask, and what, to learn whether an event or a span of a level is
    /// enabled: the provider, for any keyword.
    pub fn enabled<'p, P>(&self, provider: Option<&'p P>, level: u8) -> (query: EnabledQuery<'p, P>)
        requires
            provider is Some,
        ensures
            query == (EnabledQuery { provider: provider->0, level, keyword: FILTER_KEYWORD }),
    {
        EnabledQuery { provider: provider.unwrap(), level, keyword: FILTER_KEYWORD }
    }

    /// Whether or not an event is enabled, after its fields have been constructed.
    pub fn event_enabled(&self) -> (enabled: bool)
        ensures
            enabled,
    {
        true
    }
}

} // verus!
