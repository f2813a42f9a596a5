//! What an application burns into the fuses once it is told to make a device secure.
use crate::rkh::Rkth;
use vstd::prelude::*;

verus! {

/// For how many nanoseconds the button must be held to ask for the fuses to be written.
pub const FUSE_DELAY_NANOS: u128 = 5_000_000_000;

/// What is to be done about the root key table hash in the fuses.
#[derive(Clone, Copy, Debug, PartialEq)]
pub enum RkthFuses {
    /// They hold it already.
    UpToDate,
    /// Nothing can be done: the shadow registers do not hold anything useful.
    NotSet,
    /// They are to hold this.
    Write(Rkth),
}

/// What is to be done about the boot configuration in the fuses.
#[derive(Clone, Copy, Debug, PartialEq, Eq, Structural)]
pub enum BootCfgFuses {
    /// Nothing can be done: they have been written before.
    AlreadySet,
    /// They are to hold this.
    Write(BootCfg),
}

/// The boot configuration of a device that insists on authentic images.
#[derive(Clone, Copy, Debug, PartialEq, Eq, Structural)]
pub struct BootCfg {
    /// Boot from the QSPI flash at port B.
    pub qspi_b_boot: bool,
    /// Leave out in-system programming.
    pub disable_isp: bool,
    /// Run images with TrustZone.
    pub tzm_enable: bool,
    /// Boot authentic images only.
    pub secure_boot: bool,
    /// Leave out the device identifier composition engine.
    pub dice_skip: bool,
    /// The port of the pin that tells of a failed boot.
    pub boot_fail_pin_port: u8,
    /// The number of that pin in its port.
    pub boot_fail_pin_num: u8,
}

/// The boot configuration that is burnt.
pub open spec fn secure_boot_cfg() -> BootCfg {
    BootCfg {
        qspi_b_boot: true,
        disable_isp: true,
        tzm_enable: true,
        secure_boot: true,
        dice_skip: true,
        boot_fail_pin_port: 5,
        boot_fail_pin_num: 7,
    }
}

/// Whether all bytes of a hash are zero.
pub open spec fn is_zero(rkth: Rkth) -> bool {
    forall|i: int| 0 <= i < 32 ==> #[trigger] rkth.0@[i] == 0
}

/// What is to be done about the root key table hash, where the fuses hold `fused` and the
/// shadow registers `shadow`.
pub open spec fn rkth_decision(fused: Rkth, shadow: Rkth) -> RkthFuses {
    if fused.0@ == shadow.0@ {
        RkthFuses::UpToDate
    } else if is_zero(shadow) {
        RkthFuses::NotSet
    } else {
        RkthFuses::Write(shadow)
    }
}

/// Once the fuses have been written they are up to date, and they never are where they
/// differ from the shadow registers. A zero hash is never written, and any other is, where
/// it differs.
pub proof fn law_fuses_come_to_hold_the_shadow(fused: Rkth, shadow: Rkth)
    ensures
        rkth_decision(fused, shadow) matches RkthFuses::Write(written) ==> {
            &&& rkth_decision(written, shadow) == RkthFuses::UpToDate
            &&& written.0@ == shadow.0@
            &&& written.0@ != Seq::new(32, |i: int| 0u8)
        },
        rkth_decision(fused, shadow) == RkthFuses::UpToDate <==> fused.0@ == shadow.0@,
        rkth_decision(fused, shadow) is Write <==> fused.0@ != shadow.0@ && shadow.0@ != Seq::new(
            32,
            |i: int| 0u8,
        ),
{
    law_zero_hash(shadow);
}

/// A hash is zero exactly where each of its 32 bytes is.
pub proof fn law_zero_hash(rkth: Rkth)
    ensures
        is_zero(rkth) <==> rkth.0@ == Seq::new(32, |i: int| 0u8),
{
    if is_zero(rkth) {
        assert(rkth.0@ =~= Seq::new(32, |i: int| 0u8));
    } else {
        let j = choose|j: int| 0 <= j < 32 && #[trigger] rkth.0@[j] != 0;
        assert(Seq::new(32, |i: int| 0u8)[j] == 0);
    }
}

/// The boot configuration that is burnt leaves nothing open: the device boots authentic
/// images only, with TrustZone, from the QSPI flash at port B, without in-system programming
/// and device identifiers, and tells of a failed boot at pin 7 of port 5.
pub proof fn law_burnt_configuration_is_secure()
    ensures
        secure_boot_cfg().secure_boot,
        secure_boot_cfg().tzm_enable,
        secure_boot_cfg().qspi_b_boot,
        secure_boot_cfg().disable_isp,
        secure_boot_cfg().dice_skip,
        secure_boot_cfg().boot_fail_pin_port == 5,
        secure_boot_cfg().boot_fail_pin_num == 7,
{
}

/// Whether a button that was held for so long asks for the fuses to be written, and not
/// for another boot state.
pub fn asks_for_fuses(held_nanos: u128) -> (asks: bool)
    ensures
        asks == (held_nanos > FUSE_DELAY_NANOS),
        asks == (held_nanos > 5_000_000_000),
{
    held_nanos > FUSE_DELAY_NANOS
}

/// What is to be done about the root key table hash, where the fuses hold `fused` and the
/// shadow registers `shadow`.
pub fn rkth_fuses(fused: Rkth, shadow: Rkth) -> (fuses: RkthFuses)
    ensures
        fuses == rkth_decision(fused, shadow),
        fuses is UpToDate <==> fused.0@ == shadow.0@,
        fuses is NotSet <==> fused.0@ != shadow.0@ && shadow.0@ == Seq::new(32, |i: int| 0u8),
        fuses matches RkthFuses::Write(rkth) ==> rkth.0@ == shadow.0@,
{
    proof {
        law_zero_hash(shadow);
    }
    if fused != shadow {
        let zero = Rkth([0u8; 32]);
        proof {
            if is_zero(shadow) {
                assert(shadow.0@ =~= zero.0@);
            } else {
                assert(shadow.0@ != zero.0@);
            }
        }
        if shadow == zero {
            RkthFuses::NotSet
        } else {
            RkthFuses::Write(shadow)
        }
    } else {
        RkthFuses::UpToDate
    }
}

/// What is to be done about the boot configuration, which is only ever written to fuses
/// that are blank.
pub fn boot_cfg_fuses(blank: bool) -> (fuses: BootCfgFuses)
    ensures
        fuses == if blank {
            BootCfgFuses::Write(secure_boot_cfg())
        } else {
            BootCfgFuses::AlreadySet
        },
        fuses is Write <==> blank,
        fuses matches BootCfgFuses::Write(cfg) ==> {
            &&& cfg.qspi_b_boot && cfg.disable_isp && cfg.tzm_enable
            &&& cfg.secure_boot && cfg.dice_skip
            &&& cfg.boot_fail_pin_port == 5
            &&& cfg.boot_fail_pin_num == 7
        },
{
    if blank {
        BootCfgFuses::Write(
            BootCfg {
                qspi_b_boot: true,
                disable_isp: true,
                tzm_enable: true,
                secure_boot: true,
                dice_skip: true,
                boot_fail_pin_port: 5,
                boot_fail_pin_num: 7,
            },
        )
    } else {
        BootCfgFuses::AlreadySet
    }
}

} // verus!
