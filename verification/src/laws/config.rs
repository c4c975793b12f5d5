//! What configuring a layer and registering it gives, whichever layer it is.

use crate::guid::guid_bytes_of_name;
use crate::guid::Guid;
use crate::layer::CallsiteInterest;
use crate::layer::ConfigError;
use crate::layer::EnabledQuery;
use crate::layer::EtwLayer;
use crate::layer::GroupKey;
use crate::layer::ProviderGroup;
use crate::layer::ProviderRequest;
use vstd::prelude::*;

verus! {

/// The zero identifier has sixteen bytes, each of them 0.
pub proof fn law_zero_guid(zero: Guid, i: int)
    requires
        call_ensures(Guid::zero, (), zero),
        0 <= i < 16,
    ensures
        zero.bytes@.len() == 16,
        zero.bytes@[i] == 0,
{
}

/// Two identifiers are found to be the same exactly where no byte tells them
/// apart.
pub proof fn law_same_guid(a: Guid, b: Guid, same: bool)
    requires
        call_ensures(Guid::same, (&a, &b), same),
    ensures
        same <==> (forall|i: int| 0 <= i < 16 ==> a.bytes@[i] == b.bytes@[i]),
{
    if forall|i: int| 0 <= i < 16 ==> a.bytes@[i] == b.bytes@[i] {
        assert(a.bytes@ =~= b.bytes@);
    }
}

/// The identifier of a name is the hash of that name, unchanged.
pub proof fn law_guid_from_name(name: &str, guid: Guid)
    requires
        call_ensures(Guid::from_name, (name,), guid),
    ensures
        guid.bytes@ == guid_bytes_of_name(name@),
{
}

/// A new layer has the name that it was given, the identifier that is derived
/// from that name, no group, and no Common Schema events.
pub proof fn law_new_layer(name: &str, derived: Guid, layer: EtwLayer)
    requires
        call_ensures(EtwLayer::new, (name,), layer),
        call_ensures(Guid::from_name, (name,), derived),
    ensures
        layer.provider_name@ == name@,
        layer.provider_id.bytes@ == derived.bytes@,
        layer.provider_id.bytes@ == guid_bytes_of_name(name@),
        layer.provider_group is Unset,
        !layer.emit_common_schema_events,
{
}

/// A layer that is made from a name and an identifier has both, no group, and no
/// Common Schema events.
pub proof fn law_layer_with_name_and_id(name: &str, id: Guid, layer: EtwLayer)
    requires
        call_ensures(EtwLayer::with_name_and_id, (name, id), layer),
    ensures
        layer.provider_name@ == name@,
        layer.provider_id.bytes@ == id.bytes@,
        layer.provider_group is Unset,
        !layer.emit_common_schema_events,
{
}

/// What is read back from a layer is the identifier that was assigned to it, and
/// nothing else of the layer has changed.
pub proof fn law_assigned_id_is_read_back(before: EtwLayer, id: Guid, after: EtwLayer, read: Guid)
    requires
        call_ensures(EtwLayer::with_provider_id, (before, id), after),
        call_ensures(EtwLayer::get_provider_id, (&after,), read),
    ensures
        read.bytes@ == id.bytes@,
        after.provider_id.bytes@ == id.bytes@,
        after.provider_name == before.provider_name,
        after.provider_group == before.provider_group,
        after.emit_common_schema_events == before.emit_common_schema_events,
{
}

/// Turning Common Schema events on turns them on, and changes nothing else.
pub proof fn law_common_schema_events_turned_on(before: EtwLayer, after: EtwLayer)
    requires
        call_ensures(EtwLayer::with_common_schema_events, (before,), after),
    ensures
        after.emit_common_schema_events,
        after.provider_name == before.provider_name,
        after.provider_id == before.provider_id,
        after.provider_group == before.provider_group,
{
}

/// A layer that joins the group of an identifier is in the ETW group with exactly
/// the bytes of that identifier, and nothing else of the layer has changed.
pub proof fn law_group_by_id(before: EtwLayer, id: Guid, after: EtwLayer)
    requires
        call_ensures(EtwLayer::with_provider_group::<Guid>, (before, id), after),
    ensures
        after.provider_group matches ProviderGroup::Windows(joined) && joined.bytes@ == id.bytes@,
        after.provider_name == before.provider_name,
        after.provider_id == before.provider_id,
        after.emit_common_schema_events == before.emit_common_schema_events,
{
}

/// A layer that joins the group of a string is in the EventHeader group with
/// exactly the characters of that string, and nothing else of the layer has
/// changed.
pub proof fn law_group_by_name<'a>(before: EtwLayer, name: &'a str, after: EtwLayer)
    requires
        call_ensures(EtwLayer::with_provider_group::<&'a str>, (before, name), after),
    ensures
        after.provider_group matches ProviderGroup::Linux(joined) && joined@ == name@,
        after.provider_name == before.provider_name,
        after.provider_id == before.provider_id,
        after.emit_common_schema_events == before.emit_common_schema_events,
{
}

/// A key makes the group that it names: an identifier the ETW group of its bytes,
/// a string the EventHeader group of its characters.
pub proof fn law_keys_make_their_groups<'a>(
    id: Guid,
    group_of_id: ProviderGroup,
    name: &'a str,
    group_of_name: ProviderGroup,
)
    requires
        call_ensures(<Guid as GroupKey>::into_group, (id,), group_of_id),
        call_ensures(<&'a str as GroupKey>::into_group, (name,), group_of_name),
    ensures
        group_of_id matches ProviderGroup::Windows(joined) && joined.bytes@ == id.bytes@,
        group_of_name matches ProviderGroup::Linux(joined) && joined@ == name@,
{
}

/// Layers that join groups by different identifiers, or by different strings, are
/// in different groups.
pub proof fn law_different_keys_name_different_groups<'a, 'b>(
    layer: EtwLayer,
    id: Guid,
    other_id: Guid,
    by_id: EtwLayer,
    by_other_id: EtwLayer,
    name: &'a str,
    other_name: &'b str,
    by_name: EtwLayer,
    by_other_name: EtwLayer,
)
    requires
        call_ensures(EtwLayer::with_provider_group::<Guid>, (layer, id), by_id),
        call_ensures(EtwLayer::with_provider_group::<Guid>, (layer, other_id), by_other_id),
        call_ensures(EtwLayer::with_provider_group::<&'a str>, (layer, name), by_name),
        call_ensures(
            EtwLayer::with_provider_group::<&'b str>,
            (layer, other_name),
            by_other_name,
        ),
    ensures
        id.bytes@ != other_id.bytes@ ==> by_id.provider_group != by_other_id.provider_group,
        name@ != other_name@ ==> by_name.provider_group != by_other_name.provider_group,
        by_id.provider_group != by_name.provider_group,
{
}

/// A configuration is accepted exactly where there is no group, or the group's
/// identifier has a byte that is not 0, or the group's name holds only digits and
/// lower-case letters of ASCII. What is refused says which of the two was wrong.
pub proof fn law_accepted_configurations(layer: EtwLayer, checked: Result<(), ConfigError>)
    requires
        call_ensures(EtwLayer::validate_config, (&layer,), checked),
    ensures
        match layer.provider_group {
            ProviderGroup::Unset => checked is Ok,
            ProviderGroup::Windows(id) => if forall|i: int| 0 <= i < 16 ==> id.bytes@[i] == 0 {
                checked matches Err(error) && error is ZeroGroup
            } else {
                checked is Ok
            },
            ProviderGroup::Linux(name) => if forall|i: int|
                0 <= i < name@.len() ==> ('0' <= #[trigger] name@[i] <= '9' || 'a' <= name@[i]
                    <= 'z') {
                checked is Ok
            } else {
                checked matches Err(error) && error is GroupName
            },
        },
{
    match layer.provider_group {
        ProviderGroup::Windows(id) => {
            let clear = Seq::new(16, |i: int| 0u8);
            if forall|i: int| 0 <= i < 16 ==> id.bytes@[i] == 0 {
                assert(id.bytes@ =~= clear);
            } else {
                assert(id.bytes@ != clear);
            }
        },
        _ => {},
    }
}

/// Registering a layer is refused exactly where its configuration is, with the
/// same error, whether or not there is a provider, and whichever of the two
/// callbacks registers it.
pub proof fn law_registration_is_refused_with_configuration<'a, P>(
    layer: &'a EtwLayer,
    provider: Option<&P>,
    checked: Result<(), ConfigError>,
    dispatched: Result<Option<ProviderRequest<'a>>, ConfigError>,
    attached: Result<Option<ProviderRequest<'a>>, ConfigError>,
)
    requires
        call_ensures(EtwLayer::validate_config, (layer,), checked),
        call_ensures(EtwLayer::on_register_dispatch::<P>, (layer, provider), dispatched),
        call_ensures(EtwLayer::on_layer::<P>, (layer, provider), attached),
    ensures
        dispatched is Err <==> checked is Err,
        attached is Err <==> checked is Err,
        checked is Err ==> dispatched->Err_0 == checked->Err_0,
        checked is Err ==> attached->Err_0 == checked->Err_0,
{
}

/// A layer whose configuration is accepted and that has no provider yet has it
/// created with the layer's own name, identifier and group.
pub proof fn law_provider_is_created_as_configured<'a, P>(
    layer: &'a EtwLayer,
    provider: Option<&P>,
    checked: Result<(), ConfigError>,
    dispatched: Result<Option<ProviderRequest<'a>>, ConfigError>,
    attached: Result<Option<ProviderRequest<'a>>, ConfigError>,
)
    requires
        call_ensures(EtwLayer::validate_config, (layer,), checked),
        call_ensures(EtwLayer::on_register_dispatch::<P>, (layer, provider), dispatched),
        call_ensures(EtwLayer::on_layer::<P>, (layer, provider), attached),
        checked is Ok,
        provider is None,
    ensures
        dispatched matches Ok(Some(request)) && {
            &&& request.name@ == layer.provider_name@
            &&& request.id.bytes@ == layer.provider_id.bytes@
            &&& match layer.provider_group {
                ProviderGroup::Unset => *request.group is Unset,
                ProviderGroup::Windows(id) => *request.group matches ProviderGroup::Windows(joined)
                    && joined.bytes@ == id.bytes@,
                ProviderGroup::Linux(name) => *request.group matches ProviderGroup::Linux(joined)
                    && joined@ == name@,
            }
        },
        attached matches Ok(Some(request)) && {
            &&& request.name@ == layer.provider_name@
            &&& request.id.bytes@ == layer.provider_id.bytes@
            &&& match layer.provider_group {
                ProviderGroup::Unset => *request.group is Unset,
                ProviderGroup::Windows(id) => *request.group matches ProviderGroup::Windows(joined)
                    && joined.bytes@ == id.bytes@,
                ProviderGroup::Linux(name) => *request.group matches ProviderGroup::Linux(joined)
                    && joined@ == name@,
            }
        },
{
}

/// A layer that has a provider, and whose configuration is accepted, has none
/// created.
pub proof fn law_no_second_provider<'a, P>(
    layer: &'a EtwLayer,
    provider: Option<&P>,
    checked: Result<(), ConfigError>,
    dispatched: Result<Option<ProviderRequest<'a>>, ConfigError>,
    attached: Result<Option<ProviderRequest<'a>>, ConfigError>,
)
    requires
        call_ensures(EtwLayer::validate_config, (layer,), checked),
        call_ensures(EtwLayer::on_register_dispatch::<P>, (layer, provider), dispatched),
        call_ensures(EtwLayer::on_layer::<P>, (layer, provider), attached),
        checked is Ok,
        provider is Some,
    ensures
        dispatched matches Ok(made) && made is None,
        attached matches Ok(made) && made is None,
{
}

/// A layer that joined the group of an identifier which is not zero has its
/// provider created in the group of that identifier, under the identifier that is
/// read from the layer.
pub proof fn law_group_by_id_is_joined<'a, P>(
    before: EtwLayer,
    id: Guid,
    layer: &'a EtwLayer,
    read: Guid,
    attached: Result<Option<ProviderRequest<'a>>, ConfigError>,
    at: int,
)
    requires
        call_ensures(EtwLayer::with_provider_group::<Guid>, (before, id), *layer),
        call_ensures(EtwLayer::get_provider_id, (layer,), read),
        call_ensures(EtwLayer::on_layer::<P>, (layer, None::<&P>), attached),
        0 <= at < 16,
        id.bytes@[at] != 0,
    ensures
        attached matches Ok(Some(request)) && {
            &&& *request.group matches ProviderGroup::Windows(joined) && joined.bytes@ == id.bytes@
            &&& request.id.bytes@ == read.bytes@
            &&& request.id.bytes@ == before.provider_id.bytes@
            &&& request.name@ == before.provider_name@
        },
{
    assert(id.bytes@ != Seq::new(16, |i: int| 0u8));
}

/// A layer that joined the group of a string of digits and lower-case letters has
/// its provider created in the group of that string.
pub proof fn law_group_by_name_is_joined<'a, 'b, P>(
    before: EtwLayer,
    name: &'b str,
    layer: &'a EtwLayer,
    attached: Result<Option<ProviderRequest<'a>>, ConfigError>,
)
    requires
        call_ensures(EtwLayer::with_provider_group::<&'b str>, (before, name), *layer),
        call_ensures(EtwLayer::on_layer::<P>, (layer, None::<&P>), attached),
        forall|i: int|
            0 <= i < name@.len() ==> ('0' <= #[trigger] name@[i] <= '9' || 'a' <= name@[i] <= 'z'),
    ensures
        attached matches Ok(Some(request)) && {
            &&& *request.group matches ProviderGroup::Linux(joined) && joined@ == name@
            &&& request.id.bytes@ == before.provider_id.bytes@
            &&& request.name@ == before.provider_name@
        },
{
}

/// Each refusal has its own words.
pub proof fn law_refusals_in_words(error: ConfigError, text: &'static str)
    requires
        call_ensures(ConfigError::message, (&error,), text),
    ensures
        error is ZeroGroup ==> text@ == "Provider GUID must not be zeroes"@,
        error is GroupName ==> text@
            == "Provider names must be lower case ASCII or numeric digits"@,
{
}

/// The provider that is there is asked each time, about the level at hand and the
/// keyword 0; an event whose fields were constructed is never held back.
pub proof fn law_provider_is_asked_each_time<'p, P>(
    layer: EtwLayer,
    provider: &'p P,
    level: u8,
    interest: CallsiteInterest,
    query: EnabledQuery<'p, P>,
    after_construction: bool,
)
    requires
        call_ensures(EtwLayer::register_callsite::<P>, (&layer, Some(provider)), interest),
        call_ensures(EtwLayer::enabled::<P>, (&layer, Some(provider), level), query),
        call_ensures(EtwLayer::event_enabled, (&layer,), after_construction),
    ensures
        interest is Sometimes,
        query.provider == provider,
        query.level == level,
        query.keyword == 0,
        after_construction,
{
}

/// Nothing is asked of a caller but a provider where it is used, and a name that
/// can be hashed.
pub proof fn law_configuration_calls_are_open<'a, P>(
    layer: EtwLayer,
    name: &'a str,
    id: Guid,
    other: Guid,
    provider: Option<&P>,
    some: &P,
    level: u8,
)
    ensures
        name@.len() <= 22_906_492_237 ==> call_requires(EtwLayer::new, (name,)),
        name@.len() <= 22_906_492_237 ==> call_requires(Guid::from_name, (name,)),
        call_requires(Guid::zero, ()),
        call_requires(Guid::same, (&id, &other)),
        call_requires(EtwLayer::with_name_and_id, (name, id)),
        call_requires(EtwLayer::with_provider_id, (layer, id)),
        call_requires(EtwLayer::get_provider_id, (&layer,)),
        call_requires(EtwLayer::with_common_schema_events, (layer,)),
        call_requires(EtwLayer::with_provider_group::<Guid>, (layer, id)),
        call_requires(EtwLayer::with_provider_group::<&'a str>, (layer, name)),
        call_requires(EtwLayer::validate_config, (&layer,)),
        call_requires(EtwLayer::on_register_dispatch::<P>, (&layer, provider)),
        call_requires(EtwLayer::on_layer::<P>, (&layer, provider)),
        call_requires(EtwLayer::register_callsite::<P>, (&layer, Some(some))),
        call_requires(EtwLayer::enabled::<P>, (&layer, Some(some), level)),
        call_requires(EtwLayer::event_enabled, (&layer,)),
{
}

} // verus!
