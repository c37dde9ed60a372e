//! The two keys that the tunnel works with.
use vstd::prelude::*;

verus! {

/// Whose key it is.
#[derive(Debug, Clone, Copy, PartialEq, Eq, Structural)]
pub enum KeyRole {
    /// The endpoint's: its public key is known.
    Endpoint,
    /// The device's own: its private key is known.
    Device,
}

/// The DER of the public key of the endpoint and of the private key of the device.
#[derive(Debug, Clone)]
pub struct ConfiguredKeys {
    pub endpoint: Vec<u8>,
    pub device: Vec<u8>,
}

impl ConfiguredKeys {
    /// The DER of one of the keys.
    pub open spec fn bytes(self, key: KeyRole) -> Seq<u8> {
        match key {
            KeyRole::Endpoint => self.endpoint@,
            KeyRole::Device => self.device@,
        }
    }

    /// The DER of one of the keys.
    pub fn der(&self, key: KeyRole) -> (der: &[u8])
        ensures
            der@ == self.bytes(key),
    {
        match key {
            KeyRole::Endpoint => self.endpoint.as_slice(),
            KeyRole::Device => self.device.as_slice(),
        }
    }
}

/// The keys of the configuration, given what came of reading them. Where the
/// endpoint's key could not be read, its error is passed on as it is, whatever
/// came of the device's.
pub fn configured_keys<E>(
    endpoint: Result<Vec<u8>, E>,
    device: Result<Vec<u8>, E>,
) -> (keys: Result<ConfiguredKeys, E>)
    ensures
        match (endpoint, device) {
            (Err(error), _) => keys == Err::<ConfiguredKeys, E>(error),
            (Ok(_), Err(error)) => keys == Err::<ConfiguredKeys, E>(error),
            (Ok(endpoint), Ok(device)) => keys matches Ok(keys) && keys.bytes(KeyRole::Endpoint)
                == endpoint@ && keys.bytes(KeyRole::Device) == device@,
        },
{
    match endpoint {
        Err(error) => Err(error),
        Ok(endpoint) => match device {
            Err(error) => Err(error),
            Ok(device) => Ok(ConfiguredKeys { endpoint, device }),
        },
    }
}

/// Each key that was read is the one that is given out under its role, byte for byte,
/// and never the other. There are keys exactly where both could be read; else the
/// error is the one of the endpoint's key where that one failed, and it is unchanged.
pub proof fn keys_are_given_out_as_they_were_read<E>(
    endpoint: Result<Vec<u8>, E>,
    device: Result<Vec<u8>, E>,
    keys: Result<ConfiguredKeys, E>,
)
    requires
        call_ensures(configured_keys::<E>, (endpoint, device), keys),
    ensures
        keys is Ok <==> endpoint is Ok && device is Ok,
        keys is Ok ==> forall|der: &[u8]|
            call_ensures(ConfiguredKeys::der, (&keys->Ok_0, KeyRole::Endpoint), der) ==> der@
                == endpoint->Ok_0@,
        keys is Ok ==> forall|der: &[u8]|
            call_ensures(ConfiguredKeys::der, (&keys->Ok_0, KeyRole::Device), der) ==> der@
                == device->Ok_0@,
        endpoint is Err ==> keys->Err_0 == endpoint->Err_0,
        endpoint is Ok && device is Err ==> keys->Err_0 == device->Err_0,
{
}

/// The DER under a role is the one that is held for it.
pub proof fn key_is_the_one_of_its_role(keys: &ConfiguredKeys, key: KeyRole, der: &[u8])
    requires
        call_ensures(ConfiguredKeys::der, (keys, key), der),
    ensures
        key is Endpoint ==> der@ == keys.endpoint@,
        key is Device ==> der@ == keys.device@,
{
}

} // verus!
