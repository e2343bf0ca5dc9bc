//! Virtual devices: what a program that combines input devices into one
//! output device requires of its inputs, and the check of those
//! requirements.
use vstd::prelude::*;
use std::collections::HashMap;
use crate::component::ComponentKind;
use crate::device::DeviceInfo;
use crate::text::{digit_chars, push_digits};

verus! {

broadcast use vstd::std_specs::hash::group_hash_axioms;

/// The handle of a virtual device: the identifier under which it was
/// registered.
#[derive(Copy, Clone)]
pub struct VDeviceHandle(pub uuid::Uuid);

/// Why a set of input devices does not fit a program.
#[derive(Clone, Debug, PartialEq, Eq, Structural)]
pub enum VerificationError {
    InvalidDeviceAmount { need: usize, got: usize },
    InvalidComponentAmount { device_index: usize, kind: ComponentKind, need: usize, got: usize },
}

/// What a program requires of one input device: how many components of
/// each kind, keyed by the kind's number (`ComponentKind::index`). A kind
/// with no entry is required zero times.
pub struct DeviceReq {
    pub components: HashMap<u8, usize>,
}

impl VerificationError {
    /// The message of the error, as shown to users.
    pub open spec fn message(self) -> Seq<char> {
        match self {
            VerificationError::InvalidDeviceAmount { need, got } => "invalid number of devices (need "@
                + digit_chars(need as nat, 10) + ", got "@ + digit_chars(got as nat, 10) + ")"@,
            VerificationError::InvalidComponentAmount { device_index, kind, need, got } => "invalid number of "@
                + kind.label() + " components for device index "@ + digit_chars(device_index as nat, 10)
                + " (need "@ + digit_chars(need as nat, 10) + ", got "@ + digit_chars(got as nat, 10) + ")"@,
        }
    }

    /// The message of the error.
    pub fn to_string(&self) -> (s: String)
        ensures
            s@ == self.message(),
    {
        let mut s = String::new();
        match self {
            VerificationError::InvalidDeviceAmount { need, got } => {
                s.append("invalid number of devices (need ");
                push_digits(&mut s, *need as u128, 10);
                s.append(", got ");
                push_digits(&mut s, *got as u128, 10);
                s.append(")");
            },
            VerificationError::InvalidComponentAmount { device_index, kind, need, got } => {
                s.append("invalid number of ");
                s.append(kind.name());
                s.append(" components for device index ");
                push_digits(&mut s, *device_index as u128, 10);
                s.append(" (need ");
                push_digits(&mut s, *need as u128, 10);
                s.append(", got ");
                push_digits(&mut s, *got as u128, 10);
                s.append(")");
            },
        }
        s
    }
}

/// The kinds whose counts are checked, in the order they are checked.
pub open spec fn checked_kinds() -> Seq<ComponentKind> {
    seq![
        ComponentKind::Controller,
        ComponentKind::Motion,
        ComponentKind::Analogs,
        ComponentKind::Buttons,
        ComponentKind::TouchPad,
    ]
}

/// The count a requirement map asks for `kind`.
pub open spec fn required(components: Map<u8, usize>, kind: ComponentKind) -> usize {
    if components.contains_key(kind.spec_index()) {
        components[kind.spec_index()]
    } else {
        0
    }
}

/// The outcome of checking `info`, the device at `index`, against the
/// requirement map, looking at the kinds `checked_kinds()[from..]`: the
/// first kind whose count differs gives the error.
pub open spec fn check_from(components: Map<u8, usize>, index: usize, info: DeviceInfo, from: nat) -> Result<(), VerificationError>
    decreases 5 - from,
{
    if from >= 5 {
        Ok(())
    } else {
        let kind = checked_kinds()[from as int];
        let need = required(components, kind);
        let got = info.component_count(kind);
        if need != got {
            Err(VerificationError::InvalidComponentAmount { device_index: index, kind, need, got: got as usize })
        } else {
            check_from(components, index, info, from + 1)
        }
    }
}

/// The outcome of checking the devices `infos[from..]` against the
/// requirements of the same index: the first device that does not fit gives
/// the error.
pub open spec fn check_devices_from(reqs: Seq<Map<u8, usize>>, infos: Seq<DeviceInfo>, from: nat) -> Result<(), VerificationError>
    decreases infos.len() - from,
{
    if from >= infos.len() || from >= reqs.len() {
        Ok(())
    } else {
        match check_from(reqs[from as int], from as usize, infos[from as int], 0) {
            Err(e) => Err(e),
            Ok(()) => check_devices_from(reqs, infos, from + 1),
        }
    }
}

/// The outcome of checking a program's requirements against its input
/// devices.
pub open spec fn check_program(reqs: Seq<Map<u8, usize>>, infos: Seq<DeviceInfo>) -> Result<(), VerificationError> {
    if reqs.len() != infos.len() {
        Err(VerificationError::InvalidDeviceAmount { need: reqs.len() as usize, got: infos.len() as usize })
    } else {
        check_devices_from(reqs, infos, 0)
    }
}

impl DeviceReq {
    /// The count required of `kind`.
    pub fn required(&self, kind: ComponentKind) -> (n: usize)
        ensures
            n == required(self.components@, kind),
    {
        match self.components.get(&kind.index()) {
            Some(n) => *n,
            None => 0,
        }
    }

    /// Checks that `info`, the input device at `index`, has as many
    /// components of each checked kind as required.
    pub fn verify(&self, index: usize, info: &DeviceInfo) -> (r: Result<(), VerificationError>)
        ensures
            r == check_from(self.components@, index, *info, 0),
            r is Ok <==> fits_exactly(self.components@, *info),
    {
        proof {
            law_device_check(self.components@, index, *info);
        }
        let kinds = [
            ComponentKind::Controller,
            ComponentKind::Motion,
            ComponentKind::Analogs,
            ComponentKind::Buttons,
            ComponentKind::TouchPad,
        ];
        assert(kinds@ =~= checked_kinds());
        let mut k: usize = 0;
        while k < 5
            invariant
                k <= 5,
                kinds@ == checked_kinds(),
                check_from(self.components@, index, *info, 0) == check_from(self.components@, index, *info, k as nat),
            decreases 5 - k,
        {
            let kind = kinds[k];
            let need = self.required(kind);
            let got = info.count(kind);
            if need != got {
                return Err(VerificationError::InvalidComponentAmount { device_index: index, kind, need, got });
            }
            k = k + 1;
        }
        Ok(())
    }
}

/// The requirement maps of a list of requirements.
pub open spec fn req_maps(reqs: Seq<DeviceReq>) -> Seq<Map<u8, usize>> {
    reqs.map_values(|r: DeviceReq| r.components@)
}

/// Checks a program's input requirements against its input devices: the
/// numbers of devices must agree, and then each device must fit the
/// requirement of the same index.
pub fn verify_program(reqs: &Vec<DeviceReq>, infos: &Vec<DeviceInfo>) -> (r: Result<(), VerificationError>)
    ensures
        r == check_program(req_maps(reqs@), infos@),
        r is Ok <==> (reqs@.len() == infos@.len()
            && forall|i: int| 0 <= i < infos@.len() ==> #[trigger] fits_exactly(reqs@[i].components@, infos@[i])),
{
    proof {
        law_program_check(req_maps(reqs@), infos@);
        assert forall|i: int| 0 <= i < reqs@.len() implies #[trigger] req_maps(reqs@)[i] == reqs@[i].components@ by {}
        if reqs@.len() == infos@.len() {
            assert((forall|i: int| 0 <= i < infos@.len() ==> #[trigger] fits_exactly(req_maps(reqs@)[i], infos@[i]))
                <==> (forall|i: int| 0 <= i < infos@.len() ==> #[trigger] fits_exactly(reqs@[i].components@, infos@[i]))) by {
                if forall|i: int| 0 <= i < infos@.len() ==> #[trigger] fits_exactly(req_maps(reqs@)[i], infos@[i]) {
                    assert forall|i: int| 0 <= i < infos@.len() implies #[trigger] fits_exactly(reqs@[i].components@, infos@[i]) by {
                        assert(req_maps(reqs@)[i] == reqs@[i].components@);
                    }
                }
                if forall|i: int| 0 <= i < infos@.len() ==> #[trigger] fits_exactly(reqs@[i].components@, infos@[i]) {
                    assert forall|i: int| 0 <= i < infos@.len() implies #[trigger] fits_exactly(req_maps(reqs@)[i], infos@[i]) by {
                        assert(req_maps(reqs@)[i] == reqs@[i].components@);
                    }
                }
            }
        }
    }
    if reqs.len() != infos.len() {
        return Err(VerificationError::InvalidDeviceAmount { need: reqs.len(), got: infos.len() });
    }
    let mut i: usize = 0;
    while i < reqs.len()
        invariant
            i <= reqs@.len(),
            reqs@.len() == infos@.len(),
            check_program(req_maps(reqs@), infos@) == check_devices_from(req_maps(reqs@), infos@, i as nat),
        decreases reqs@.len() - i,
    {
        assert(req_maps(reqs@)[i as int] == reqs@[i as int].components@);
        match reqs[i].verify(i, &infos[i]) {
            Err(e) => {
                return Err(e);
            },
            Ok(()) => {},
        }
        i = i + 1;
    }
    Ok(())
}

/// The device has exactly as many controllers, motion sensors, analog
/// banks, button banks and touch pads as the requirement map asks for (an
/// absent kind asks for none).
pub open spec fn fits_exactly(components: Map<u8, usize>, info: DeviceInfo) -> bool {
    &&& required(components, ComponentKind::Controller) == info.component_count(ComponentKind::Controller)
    &&& required(components, ComponentKind::Motion) == info.component_count(ComponentKind::Motion)
    &&& required(components, ComponentKind::Analogs) == info.component_count(ComponentKind::Analogs)
    &&& required(components, ComponentKind::Buttons) == info.component_count(ComponentKind::Buttons)
    &&& required(components, ComponentKind::TouchPad) == info.component_count(ComponentKind::TouchPad)
}

/// A device passes its check exactly when it has the required number of
/// components of every checked kind, no more and no fewer; a failed check
/// names the device's index, a kind whose count differs, the count asked
/// for and the count the device has.
pub proof fn law_device_check(components: Map<u8, usize>, index: usize, info: DeviceInfo)
    ensures
        check_from(components, index, info, 0) is Ok <==> fits_exactly(components, info),
        match check_from(components, index, info, 0) {
            Err(VerificationError::InvalidComponentAmount { device_index, kind, need, got }) =>
                device_index == index && need == required(components, kind) && got == info.component_count(kind) as usize
                    && need != info.component_count(kind),
            Err(VerificationError::InvalidDeviceAmount { .. }) => false,
            Ok(()) => true,
        },
{
    reveal_with_fuel(check_from, 6);
}

proof fn lemma_devices_check(reqs: Seq<Map<u8, usize>>, infos: Seq<DeviceInfo>, from: nat)
    requires
        reqs.len() == infos.len(),
    ensures
        check_devices_from(reqs, infos, from) is Ok <==> forall|i: int| from <= i < infos.len() ==> #[trigger] fits_exactly(reqs[i], infos[i]),
    decreases infos.len() - from,
{
    if from < infos.len() {
        law_device_check(reqs[from as int], from as usize, infos[from as int]);
        lemma_devices_check(reqs, infos, from + 1);
    }
}

/// A program accepts its input devices exactly when there are as many
/// devices as requirements and each device has the required number of
/// components of every checked kind; with a different number of devices
/// the error gives both numbers.
pub proof fn law_program_check(reqs: Seq<Map<u8, usize>>, infos: Seq<DeviceInfo>)
    ensures
        check_program(reqs, infos) is Ok <==> (reqs.len() == infos.len()
            && forall|i: int| 0 <= i < infos.len() ==> #[trigger] fits_exactly(reqs[i], infos[i])),
        reqs.len() != infos.len() ==> check_program(reqs, infos) == Err::<(), VerificationError>(
            VerificationError::InvalidDeviceAmount { need: reqs.len() as usize, got: infos.len() as usize },
        ),
{
    if reqs.len() == infos.len() {
        lemma_devices_check(reqs, infos, 0);
    }
}

/// Arithmetic operators of the device-combining language.
#[derive(Copy, Clone, PartialEq, Eq, Structural)]
pub enum BinOp {
    Add,
    Sub,
    Mul,
    Div,
    Modulo,
}

/// Comparison operators of the device-combining language.
#[derive(Copy, Clone, PartialEq, Eq, Structural)]
pub enum CmpOp {
    Greater,
    GreaterEq,
    Less,
    LessEq,
    Equal,
    NotEqual,
}

} // verus!
