use vstd::prelude::*;

verus! {

/// The websocket names a protocol is reachable under.
pub struct ExposedWebsocketSpecifier {
    pub names: Vec<String>,
}

/// The device specifiers a user configured for one protocol.
pub struct ExposedUserDeviceSpecifiers {
    pub websocket: Option<ExposedWebsocketSpecifier>,
}

/// Which device a user configuration applies to.
pub struct DeviceIdentifier {
    pub address: String,
    pub protocol: String,
    pub identifier: Option<String>,
}

/// A user's settings for one device.
pub struct ExposedUserDeviceConfig {
    pub identifier: DeviceIdentifier,
    pub name: String,
    pub display_name: Option<String>,
    pub allow: Option<bool>,
    pub deny: Option<bool>,
    pub reserved_index: Option<u32>,
}

/// A user's device configuration: specifiers per protocol and per-device settings.
pub struct ExposedUserConfig {
    pub specifiers: Vec<(String, ExposedUserDeviceSpecifiers)>,
    pub configurations: Vec<ExposedUserDeviceConfig>,
}

/// Whether a protocol's specifiers name at least one websocket.
pub open spec fn names_websocket(s: ExposedUserDeviceSpecifiers) -> bool {
    s.websocket matches Some(w) && w.names@.len() > 0
}

/// The protocol and websocket names of every entry that names at least one
/// websocket, in order.
pub open spec fn websocket_entries(specifiers: Seq<(String, ExposedUserDeviceSpecifiers)>) -> Seq<
    (String, Seq<String>),
>
    decreases specifiers.len(),
{
    if specifiers.len() == 0 {
        Seq::empty()
    } else {
        let rest = websocket_entries(specifiers.drop_last());
        let (protocol, s) = specifiers.last();
        if names_websocket(s) {
            rest.push((protocol, s.websocket->Some_0.names@))
        } else {
            rest
        }
    }
}

/// Each configuration whose device is known, under the name the device
/// configuration gives it, in order.
pub open spec fn named_entries(entries: Seq<(ExposedUserDeviceConfig, Option<String>)>) -> Seq<
    ExposedUserDeviceConfig,
>
    decreases entries.len(),
{
    if entries.len() == 0 {
        Seq::empty()
    } else {
        let rest = named_entries(entries.drop_last());
        let (config, known) = entries.last();
        match known {
            Some(name) => rest.push(ExposedUserDeviceConfig { name, ..config }),
            None => rest,
        }
    }
}

/// The protocol definitions to write for a user configuration's specifiers:
/// one per protocol that names at least one websocket, with those names.
pub fn websocket_definitions(specifiers: Vec<(String, ExposedUserDeviceSpecifiers)>) -> (r: Vec<
    (String, Vec<String>),
>)
    ensures
        r@.map_values(|e: (String, Vec<String>)| (e.0, e.1@)) == websocket_entries(specifiers@),
{
        let ghost all = specifiers@;
        let mut remaining = specifiers;
        let mut out: Vec<(String, Vec<String>)> = Vec::new();
        let ghost mut i: int = 0;
        while remaining.len() > 0
            invariant
                0 <= i <= all.len(),
                remaining@ == all.subrange(i, all.len() as int),
                out@.map_values(|e: (String, Vec<String>)| (e.0, e.1@)) == websocket_entries(
                    all.take(i),
                ),
            decreases remaining.len(),
        {
            let (protocol, entry) = remaining.remove(0);
            proof {
                assert(all.take(i + 1).drop_last() =~= all.take(i));
                assert(all.take(i + 1).last() == all[i]);
                assert(remaining@ =~= all.subrange(i + 1, all.len() as int));
            }
            let ghost before = out@;
            match entry.websocket {
                Some(websocket) => {
                    if websocket.names.len() > 0 {
                        out.push((protocol, websocket.names));
                        proof {
                            assert(out@.map_values(|e: (String, Vec<String>)| (e.0, e.1@))
                                =~= before.map_values(|e: (String, Vec<String>)| (e.0, e.1@)).push(
                                (all[i].0, all[i].1.websocket->Some_0.names@),
                            ));
                        }
                    }
                },
                None => {},
            }
            proof {
                i = i + 1;
            }
        }
        proof {
            assert(all.take(i) =~= all);
        }
        out
}

/// The device settings to write: none at all when the list is empty.
pub fn device_configs_to_write(configs: Vec<ExposedUserDeviceConfig>) -> (r: Option<
    Vec<ExposedUserDeviceConfig>,
>)
    ensures
        r is Some <==> configs@.len() > 0,
        r matches Some(v) ==> v@ == configs@,
{
    if configs.len() > 0 {
        Some(configs)
    } else {
        None
    }
}

/// The settings of the devices the device configuration knows, each under the
/// name it gives: each entry pairs a configuration with that name, or with
/// `None` when the device is unknown. Unknown ones are left out; the order is kept.
pub fn named_device_configs(entries: Vec<(ExposedUserDeviceConfig, Option<String>)>) -> (r: Vec<
    ExposedUserDeviceConfig,
>)
    ensures
        r@ == named_entries(entries@),
{
    let ghost all = entries@;
    let mut remaining = entries;
    let mut out: Vec<ExposedUserDeviceConfig> = Vec::new();
    let ghost mut i: int = 0;
    while remaining.len() > 0
        invariant
            0 <= i <= all.len(),
            remaining@ == all.subrange(i, all.len() as int),
            out@ == named_entries(all.take(i)),
        decreases remaining.len(),
    {
        let (config, known) = remaining.remove(0);
        proof {
            assert(all.take(i + 1).drop_last() =~= all.take(i));
            assert(all.take(i + 1).last() == all[i]);
            assert(remaining@ =~= all.subrange(i + 1, all.len() as int));
        }
        let ghost before = out@;
        match known {
            Some(name) => {
                let mut named = config;
                named.name = name;
                out.push(named);
                proof {
                    assert(out@ =~= before.push(
                        ExposedUserDeviceConfig { name: all[i].1->Some_0, ..all[i].0 },
                    ));
                }
            },
            None => {},
        }
        proof {
            i = i + 1;
        }
    }
    proof {
        assert(all.take(i) =~= all);
    }
    out
}

} // verus!
