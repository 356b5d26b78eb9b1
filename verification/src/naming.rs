use vstd::prelude::*;
use vstd::string::*;

use crate::text::{
    chars_of, decimal, first_index, first_index_in, last_index_of, last_occurrence, occurs_at, owned,
    parse_unsigned, parse_unsigned_in, string_of, strip_prefix, strip_prefix_of, to_upper,
    upper_case, zero_padded, zero_padded_decimal, lemma_decimal_digits, lemma_parse_decimal,
    lemma_last_occurrence_at, lemma_first_index_at, is_digit, concat2, concat3, without_char,
    lower_case, to_lower, remove_char, push_decimal,
};
use crate::app_config::{Settings, SettingsView};

verus! {

/// What a user group's name tells about the environment it belongs to.
pub struct ParsedEnvironment {
    pub group_id: String,
    pub group_name: String,
    pub module: String,
    pub class: String,
    pub suffix: String,
}

/// The value of a [`ParsedEnvironment`].
pub struct ParsedEnvironmentView {
    pub group_id: Seq<char>,
    pub group_name: Seq<char>,
    pub module: Seq<char>,
    pub class: Seq<char>,
    pub suffix: Seq<char>,
}

impl View for ParsedEnvironment {
    type V = ParsedEnvironmentView;

    open spec fn view(&self) -> ParsedEnvironmentView {
        ParsedEnvironmentView {
            group_id: self.group_id@,
            group_name: self.group_name@,
            module: self.module@,
            class: self.class@,
            suffix: self.suffix@,
        }
    }
}

/// The prefix of every environment's user group: `ugr_`.
pub open spec fn group_prefix() -> Seq<char> {
    seq!['u', 'g', 'r', '_']
}

/// The marker before a group's number: `_grp`.
pub open spec fn group_marker() -> Seq<char> {
    seq!['_', 'g', 'r', 'p']
}

/// A group number as the environment names show it: three digits at least, zero-padded.
pub open spec fn group_id_text(n: nat) -> Seq<char> {
    zero_padded(decimal(n), 3)
}

/// The environment that a group name `ugr_<module>_<class>_grp<number>` denotes: the module is
/// the part before the first `_`, the class the rest up to the last `_grp`, and the number, which
/// must fit in `u32`, becomes the three-digit group id.
pub open spec fn parsed_group_name(name: Seq<char>) -> Option<ParsedEnvironmentView> {
    match strip_prefix(name, group_prefix()) {
        None => None,
        Some(stripped) => match last_occurrence(stripped, group_marker()) {
            None => None,
            Some(pos) => match parse_unsigned(stripped.skip(pos + 4), u32::MAX as nat) {
                None => None,
                Some(num) => match first_index(stripped.take(pos), '_') {
                    None => None,
                    Some(us) => Some(
                        ParsedEnvironmentView {
                            group_id: group_id_text(num),
                            group_name: name,
                            module: upper_case(stripped.take(pos).take(us)),
                            class: stripped.take(pos).skip(us + 1),
                            suffix: stripped,
                        },
                    ),
                },
            },
        },
    }
}

/// Reads a group name of the form `ugr_<module>_<class>_grp<number>`.
pub fn parse_group_name(group_name: &str) -> (r: Option<ParsedEnvironment>)
    ensures
        r matches Some(p) ==> parsed_group_name(group_name@) == Some(p@),
        r is None ==> parsed_group_name(group_name@) is None,
{
    proof {
        reveal_strlit("ugr_");
        reveal_strlit("_grp");
        assert("ugr_"@ =~= group_prefix());
    }
    let stripped = match strip_prefix_of(group_name, "ugr_") {
        Some(s) => s,
        None => return None,
    };
    let chars = chars_of(stripped.as_str());
    let marker = chars_of("_grp");
    assert(marker@ == group_marker());
    let pos = match last_index_of(&chars, &marker) {
        Some(p) => p,
        None => return None,
    };
    assert(occurs_at(chars@, marker@, pos as int));
    assert(pos + 4 <= chars.len());
    assert(chars@.subrange(pos + 4, chars@.len() as int) == chars@.skip(pos + 4));
    let num = match parse_unsigned_in(&chars, pos + 4, chars.len(), 4294967295u64) {
        Some(n) => n,
        None => return None,
    };
    assert(chars@.subrange(0, pos as int) == chars@.take(pos as int));
    let us = match first_index_in(&chars, 0, pos, '_') {
        Some(u) => u,
        None => return None,
    };
    let module_raw = string_of(&chars, 0, us);
    let class_raw = string_of(&chars, us + 1, pos);
    assert(module_raw@ == chars@.take(pos as int).take(us as int));
    assert(class_raw@ == chars@.take(pos as int).skip(us + 1));
    let group_id = zero_padded_decimal(num, 3);
    let module = to_upper(module_raw.as_str());
    let suffix = string_of(&chars, 0, chars.len());
    assert(suffix@ == stripped@);
    Some(
        ParsedEnvironment {
            group_id,
            group_name: owned(group_name),
            module,
            class: class_raw,
            suffix,
        },
    )
}


/// The part of an environment's names after their kind prefix:
/// `<module>_<class>_grp<number>`.
pub open spec fn environment_label(module: Seq<char>, class: Seq<char>, n: nat) -> Seq<char> {
    module + seq!['_'] + class + group_marker() + decimal(n)
}

/// The user group name of an environment: `ugr_<module>_<class>_grp<number>`.
pub open spec fn environment_group_name(module: Seq<char>, class: Seq<char>, n: nat) -> Seq<char> {
    group_prefix() + environment_label(module, class, n)
}

/// Reading the user group name of an environment gives back its parts: the group id is the
/// number zero-padded to three digits, the module is uppercased, the class is kept, and the
/// suffix is the name without `ugr_`. This holds for every module without `_` and every number
/// that fits in `u32`.
pub proof fn lemma_group_name_round_trip(module: Seq<char>, class: Seq<char>, n: nat)
    requires
        n <= u32::MAX,
        !module.contains('_'),
    ensures
        parsed_group_name(environment_group_name(module, class, n)) == Some(
            ParsedEnvironmentView {
                group_id: group_id_text(n),
                group_name: environment_group_name(module, class, n),
                module: upper_case(module),
                class: class,
                suffix: environment_label(module, class, n),
            },
        ),
{
    let name = environment_group_name(module, class, n);
    let label = environment_label(module, class, n);
    let marker = group_marker();
    assert(name.take(4) =~= group_prefix());
    assert(name.skip(4) =~= label);
    assert(strip_prefix(name, group_prefix()) == Some(label));
    let k0: int = (module.len() + 1 + class.len()) as int;
    let digits = decimal(n);
    lemma_decimal_digits(n);
    assert(label.subrange(k0, k0 + 4) =~= marker);
    assert forall|j: int| k0 < j <= label.len() - 4 implies !occurs_at(label, marker, j) by {
        if occurs_at(label, marker, j) {
            assert(label.subrange(j, j + 4)[0] == '_');
            assert(label[j] == '_');
            if j < k0 + 4 {
                assert(label[j] == marker[j - k0]);
            } else {
                assert(label[j] == digits[j - k0 - 4]);
                assert(is_digit(digits[j - k0 - 4]));
            }
        }
    }
    lemma_last_occurrence_at(label, marker, label.len() - 4, k0);
    assert(last_occurrence(label, marker) == Some(k0));
    assert(label.skip(k0 + 4) =~= digits);
    lemma_parse_decimal(n, u32::MAX as nat);
    let prefix_part = label.take(k0);
    assert(prefix_part =~= module + seq!['_'] + class);
    assert forall|j: int| 0 <= j < module.len() implies prefix_part[j] != '_' by {
        assert(prefix_part[j] == module[j]);
    }
    assert(prefix_part[module.len() as int] == '_');
    lemma_first_index_at(prefix_part, '_', 0, module.len() as int);
    assert(prefix_part.take(module.len() as int) =~= module);
    assert(prefix_part.skip(module.len() as int + 1) =~= class);
}


// ---------------------------------------------------------------------------
// Names of an environment's resources
// ---------------------------------------------------------------------------

/// The resource pool of an environment, from its name suffix: `<pool prefix>_<suffix>`.
pub open spec fn resource_pool_name(settings: SettingsView, suffix: Seq<char>) -> Seq<char> {
    settings.prefix_resourcepool + "_"@ + suffix
}

/// The simple zone of an environment, from its group id: `<zone prefix><group id>`.
pub open spec fn simple_zone_name(settings: SettingsView, group_id: Seq<char>) -> Seq<char> {
    settings.prefix_simple_zone + group_id
}

/// The DMZ virtual network of an environment: `<vnet prefix><group id><DMZ postfix>`.
pub open spec fn vnet_dmz_name(settings: SettingsView, group_id: Seq<char>) -> Seq<char> {
    settings.prefix_vnets + group_id + settings.postfix_vnet_dmz
}

/// The LAN virtual network of an environment: `<vnet prefix><group id><LAN postfix>`.
pub open spec fn vnet_lan_name(settings: SettingsView, group_id: Seq<char>) -> Seq<char> {
    settings.prefix_vnets + group_id + settings.postfix_vnet_lan
}

/// A class name as resource names carry it: lowercased, without `-`.
pub open spec fn class_in_names(class: Seq<char>) -> Seq<char> {
    without_char(lower_case(class), '-')
}

/// The label that provisioning gives the environment of group number `n` of a module and class:
/// `<module lowercased>_<class lowercased without '-'>_grp<n>`.
pub open spec fn provisioned_label(modulnumber: Seq<char>, class: Seq<char>, n: nat) -> Seq<char> {
    environment_label(lower_case(modulnumber), class_in_names(class), n)
}

/// The resource pool that provisioning creates for group number `n`.
pub open spec fn provisioned_pool_name(settings: SettingsView, modulnumber: Seq<char>, class: Seq<char>, n: nat) -> Seq<char> {
    resource_pool_name(settings, provisioned_label(modulnumber, class, n))
}

/// The name of the firewall VM that provisioning clones for group number `n`:
/// `<firewall prefix>_<label>`.
pub open spec fn firewall_vm_name(settings: SettingsView, modulnumber: Seq<char>, class: Seq<char>, n: nat) -> Seq<char> {
    settings.prefix_firewall + "_"@ + provisioned_label(modulnumber, class, n)
}

/// `<pool prefix>_<suffix>`.
pub fn resource_pool_for(settings: &Settings, suffix: &str) -> (r: String)
    ensures
        r@ == resource_pool_name(settings@, suffix@),
{
    concat3(settings.prefix_resourcepool.as_str(), "_", suffix)
}

/// `<zone prefix><group id>`.
pub fn simple_zone_for(settings: &Settings, group_id: &str) -> (r: String)
    ensures
        r@ == simple_zone_name(settings@, group_id@),
{
    concat2(settings.prefix_simple_zone.as_str(), group_id)
}

/// `<vnet prefix><group id><DMZ postfix>`.
pub fn vnet_dmz_for(settings: &Settings, group_id: &str) -> (r: String)
    ensures
        r@ == vnet_dmz_name(settings@, group_id@),
{
    concat3(settings.prefix_vnets.as_str(), group_id, settings.postfix_vnet_dmz.as_str())
}

/// `<vnet prefix><group id><LAN postfix>`.
pub fn vnet_lan_for(settings: &Settings, group_id: &str) -> (r: String)
    ensures
        r@ == vnet_lan_name(settings@, group_id@),
{
    concat3(settings.prefix_vnets.as_str(), group_id, settings.postfix_vnet_lan.as_str())
}

/// The group id of the group at position `i` of a request: `i + 1`, zero-padded to three digits.
pub fn group_id_for_index(i: usize) -> (r: String)
    requires
        i < usize::MAX,
    ensures
        r@ == group_id_text((i + 1) as nat),
{
    zero_padded_decimal((i + 1) as u64, 3)
}

/// A class name as resource names carry it: lowercased, without `-`.
pub fn class_for_names(class: &str) -> (r: String)
    ensures
        r@ == class_in_names(class@),
{
    let lower = to_lower(class);
    remove_char(lower.as_str(), '-')
}

/// `<module lowercased>_<class lowercased without '-'>_grp<n>`.
pub fn provisioned_label_for(modulnumber: &str, class: &str, n: u64) -> (r: String)
    ensures
        r@ == provisioned_label(modulnumber@, class@, n as nat),
{
    proof {
        reveal_strlit("_");
        reveal_strlit("_grp");
    }
    let module = to_lower(modulnumber);
    let class_part = class_for_names(class);
    let mut r = module;
    r.append("_");
    r.append(class_part.as_str());
    r.append("_grp");
    push_decimal(&mut r, n);
    assert(r@ =~= provisioned_label(modulnumber@, class@, n as nat));
    r
}

/// The resource pool that provisioning creates for group number `n`.
pub fn provisioned_pool_for(settings: &Settings, modulnumber: &str, class: &str, n: u64) -> (r: String)
    ensures
        r@ == provisioned_pool_name(settings@, modulnumber@, class@, n as nat),
{
    let label = provisioned_label_for(modulnumber, class, n);
    resource_pool_for(settings, label.as_str())
}

/// The name of the firewall VM that provisioning clones for group number `n`.
pub fn firewall_vm_name_for(settings: &Settings, modulnumber: &str, class: &str, n: u64) -> (r: String)
    ensures
        r@ == firewall_vm_name(settings@, modulnumber@, class@, n as nat),
{
    let label = provisioned_label_for(modulnumber, class, n);
    concat3(settings.prefix_firewall.as_str(), "_", label.as_str())
}

/// Listing and provisioning agree on an environment's resources under the same settings: when
/// the user group of group number `n` of a module and class is named `ugr_<label>` after the provisioning label, listing
/// reads that name back to the group id and the resource pool that provisioning uses, so the
/// simple zone and the virtual networks that listing reports are those provisioning created.
pub proof fn lemma_listing_matches_provisioning(settings: SettingsView, modulnumber: Seq<char>, class: Seq<char>, n: nat)
    requires
        n <= u32::MAX,
        !lower_case(modulnumber).contains('_'),
    ensures
        parsed_group_name(group_prefix() + provisioned_label(modulnumber, class, n)) matches Some(p)
            && p.group_id == group_id_text(n)
            && resource_pool_name(settings, p.suffix) == provisioned_pool_name(settings, modulnumber, class, n)
            && simple_zone_name(settings, p.group_id) == simple_zone_name(settings, group_id_text(n))
            && vnet_dmz_name(settings, p.group_id) == vnet_dmz_name(settings, group_id_text(n))
            && vnet_lan_name(settings, p.group_id) == vnet_lan_name(settings, group_id_text(n)),
{
    lemma_group_name_round_trip(lower_case(modulnumber), class_in_names(class), n);
}

} // verus!
