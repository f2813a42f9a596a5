//! The check of an image: the device's root keys are brought in line, and the boot ROM is
//! asked whether the image is authentic.
use crate::error::BootError;
use crate::image::{image_rkth, CertificateBlockHeader, Ivt};
#[allow(unused_imports)]
use crate::image::{hashes_to, rkhs_offset};
#[allow(unused_imports)]
use crate::plan::optional;
use crate::rkh::Rkth;
#[allow(unused_imports)]
use crate::rkh::TABLE_LEN;
use vstd::prelude::*;

verus! {

/// The port of the pin that resets the NOR flash of an evaluation kit.
pub const RESET_PIN_PORT: u8 = 2;

/// The number of the pin that resets the NOR flash of an evaluation kit.
pub const RESET_PIN_NUM: u8 = 12;

/// Whether the device insists on authentic images.
#[derive(Clone, Copy, Debug, PartialEq, Eq, Structural)]
pub enum SecureBoot {
    /// It does not: the device is in development mode.
    Disabled,
    /// It does.
    Enabled,
}

/// What the shadow registers hold once they have been reloaded from the fuses.
#[derive(Clone, Copy, Debug, PartialEq)]
pub struct Shadow {
    /// The secure boot field.
    pub secure_boot: SecureBoot,
    /// The root key table hash that images are held against.
    pub rkth: Rkth,
}

/// What the check asks its board to do next.
#[derive(Clone, Copy, Debug, PartialEq)]
pub enum CheckAction {
    /// Reload the shadow registers from the fuses.
    ReloadShadow,
    /// Have the NOR flash reset by this pin on a system reset.
    EnableResetPin {
        /// The port of the pin.
        port: u8,
        /// The number of the pin in its port.
        num: u8,
    },
    /// Read the shadow registers.
    ReadShadow,
    /// Overwrite the root key table hash in the shadow registers.
    WriteRkth(Rkth),
    /// Have the boot ROM authenticate the image.
    Authenticate {
        /// The address at which the image starts.
        target_ptr: usize,
        /// The number of bytes in the image.
        image_len: u32,
    },
    /// The check is done.
    Finish(Result<(), BootError>),
}

/// What became of an action.
#[derive(Clone, Copy, Debug, PartialEq)]
pub enum CheckEvent {
    /// It is done. There is nothing to tell.
    Done,
    /// The shadow registers hold this.
    ShadowRead(Shadow),
    /// Whether the boot ROM found the image authentic.
    Authenticated(bool),
}

/// Whether `event` can come of `action`.
pub open spec fn answers(event: CheckEvent, action: CheckAction) -> bool {
    match action {
        CheckAction::ReloadShadow => event is Done,
        CheckAction::EnableResetPin { .. } => event is Done,
        CheckAction::ReadShadow => event is ShadowRead,
        CheckAction::WriteRkth(_) => event is Done,
        CheckAction::Authenticate { .. } => event is Authenticated,
        CheckAction::Finish(_) => false,
    }
}

/// Whether `event` is told by a device whose shadow registers hold `shadow` and whose boot
/// ROM finds the image `authentic` or not.
pub open spec fn told_by(event: CheckEvent, shadow: Shadow, authentic: bool) -> bool {
    match event {
        CheckEvent::Done => true,
        CheckEvent::ShadowRead(read) => read == shadow,
        CheckEvent::Authenticated(found) => found == authentic,
    }
}

/// Whether the device's root key table hash is replaced by the image's: in development
/// mode only, and only where the two differ.
pub open spec fn replaces_rkth(image_rkth: Rkth, shadow: Shadow) -> bool {
    shadow.secure_boot is Disabled && image_rkth.0@ != shadow.rkth.0@
}

/// What the check comes to, for what the boot ROM has found.
pub open spec fn verdict(authentic: bool) -> Result<(), BootError> {
    if authentic {
        Ok(())
    } else {
        Err(BootError::Authenticate)
    }
}

/// Authentication, and what it comes to.
pub open spec fn authentication_plan(ivt: Ivt, authentic: bool) -> Seq<CheckAction> {
    seq![
        CheckAction::Authenticate { target_ptr: ivt.target_ptr, image_len: ivt.image_len as u32 },
        CheckAction::Finish(verdict(authentic)),
    ]
}

/// What is done once the shadow registers have been read.
pub open spec fn rkth_plan(
    ivt: Ivt,
    image_rkth: Rkth,
    shadow: Shadow,
    authentic: bool,
) -> Seq<CheckAction> {
    optional(replaces_rkth(image_rkth, shadow), CheckAction::WriteRkth(image_rkth))
        + authentication_plan(ivt, authentic)
}

/// What is done once the shadow registers have been reloaded. An evaluation kit without
/// fuses needs to be told of its reset pin.
pub open spec fn shadow_plan(
    ivt: Ivt,
    image_rkth: Rkth,
    evaluation_kit: bool,
    shadow: Shadow,
    authentic: bool,
) -> Seq<CheckAction> {
    optional(
        evaluation_kit,
        CheckAction::EnableResetPin { port: RESET_PIN_PORT, num: RESET_PIN_NUM },
    ) + seq![CheckAction::ReadShadow] + rkth_plan(ivt, image_rkth, shadow, authentic)
}

/// All that the check of an image does, on a device whose shadow registers hold `shadow`
/// after they were reloaded, and whose boot ROM finds the image `authentic` or not.
///
/// Where the image has no root key table hash, that is all there is to say.
pub open spec fn check_plan(
    ivt: Ivt,
    image_rkth: Result<Rkth, BootError>,
    evaluation_kit: bool,
    shadow: Shadow,
    authentic: bool,
) -> Seq<CheckAction> {
    match image_rkth {
        Ok(rkth) => seq![CheckAction::ReloadShadow] + shadow_plan(
            ivt,
            rkth,
            evaluation_kit,
            shadow,
            authentic,
        ),
        Err(error) => seq![CheckAction::Finish(Err(error))],
    }
}

/// Where a check stands.
#[derive(Clone, Copy, Debug)]
enum Stage {
    /// The shadow registers are being reloaded.
    Reloading(Rkth),
    /// The reset pin is being set up.
    EnablingPin(Rkth),
    /// The shadow registers are being read.
    Reading(Rkth),
    /// The root key table hash is being overwritten.
    Writing(Rkth),
    /// The image is being authenticated.
    Authenticating,
    /// The check is done.
    Finished(Result<(), BootError>),
}

/// A check on its way. It says what to do, and is told what came of it.
#[derive(Debug)]
pub struct ImageCheck {
    ivt: Ivt,
    evaluation_kit: bool,
    stage: Stage,
}

impl ImageCheck {
    /// The action that is to be done now.
    pub closed spec fn spec_action(&self) -> CheckAction {
        match self.stage {
            Stage::Reloading(_) => CheckAction::ReloadShadow,
            Stage::EnablingPin(_) => CheckAction::EnableResetPin {
                port: RESET_PIN_PORT,
                num: RESET_PIN_NUM,
            },
            Stage::Reading(_) => CheckAction::ReadShadow,
            Stage::Writing(rkth) => CheckAction::WriteRkth(rkth),
            Stage::Authenticating => CheckAction::Authenticate {
                target_ptr: self.ivt.target_ptr,
                image_len: self.ivt.image_len as u32,
            },
            Stage::Finished(result) => CheckAction::Finish(result),
        }
    }

    /// The actions that come after the present one, on a device whose shadow registers hold
    /// `shadow` after they were reloaded, and whose boot ROM finds the image `authentic` or
    /// not.
    pub closed spec fn remaining(&self, shadow: Shadow, authentic: bool) -> Seq<CheckAction> {
        match self.stage {
            Stage::Reloading(rkth) => shadow_plan(
                self.ivt,
                rkth,
                self.evaluation_kit,
                shadow,
                authentic,
            ),
            Stage::EnablingPin(rkth) => seq![CheckAction::ReadShadow] + rkth_plan(
                self.ivt,
                rkth,
                shadow,
                authentic,
            ),
            Stage::Reading(rkth) => rkth_plan(self.ivt, rkth, shadow, authentic),
            Stage::Writing(_) => authentication_plan(self.ivt, authentic),
            Stage::Authenticating => seq![CheckAction::Finish(verdict(authentic))],
            Stage::Finished(_) => Seq::empty(),
        }
    }

    /// Whether the check is at the very start of its plan.
    pub open spec fn begins(
        &self,
        ivt: Ivt,
        image_rkth: Result<Rkth, BootError>,
        evaluation_kit: bool,
    ) -> bool {
        forall|shadow: Shadow, authentic: bool|
            {
                let plan = check_plan(ivt, image_rkth, evaluation_kit, shadow, authentic);
                &&& self.action() == plan[0]
                &&& #[trigger] self.remaining(shadow, authentic) == plan.skip(1)
            }
    }

    /// Starts the check of an image from its root key table hash.
    pub fn from_rkth(
        ivt: Ivt,
        image_rkth: Result<Rkth, BootError>,
        evaluation_kit: bool,
    ) -> (check: Self)
        ensures
            check.begins(ivt, image_rkth, evaluation_kit),
    {
        let stage = match image_rkth {
            Ok(rkth) => Stage::Reloading(rkth),
            Err(error) => Stage::Finished(Err(error)),
        };
        let check = ImageCheck { ivt, evaluation_kit, stage };
        assert forall|shadow: Shadow, authentic: bool|
            {
                let plan = check_plan(ivt, image_rkth, evaluation_kit, shadow, authentic);
                &&& check.spec_action() == plan[0]
                &&& #[trigger] check.remaining(shadow, authentic) == plan.skip(1)
            } by {
            let plan = check_plan(ivt, image_rkth, evaluation_kit, shadow, authentic);
            assert(check.remaining(shadow, authentic) =~= plan.skip(1));
        }
        check
    }

    /// The action that is to be done now.
    #[verifier::when_used_as_spec(spec_action)]
    pub fn action(&self) -> (action: CheckAction)
        ensures
            action == self.action(),
    {
        match self.stage {
            Stage::Reloading(_) => CheckAction::ReloadShadow,
            Stage::EnablingPin(_) => CheckAction::EnableResetPin {
                port: RESET_PIN_PORT,
                num: RESET_PIN_NUM,
            },
            Stage::Reading(_) => CheckAction::ReadShadow,
            Stage::Writing(rkth) => CheckAction::WriteRkth(rkth),
            Stage::Authenticating => CheckAction::Authenticate {
                target_ptr: self.ivt.target_ptr,
                image_len: #[verifier::truncate]
                (self.ivt.image_len as u32),
            },
            Stage::Finished(result) => CheckAction::Finish(result),
        }
    }

    /// Goes on to the next action, given what came of the present one.
    pub fn advance(&mut self, event: CheckEvent)
        requires
            answers(event, old(self).action()),
        ensures
            follows(*old(self), event, *final(self)),
    {
        match event {
            CheckEvent::Done => {
                match self.stage {
                    Stage::Reloading(rkth) => {
                        if self.evaluation_kit {
                            self.stage = Stage::EnablingPin(rkth);
                        } else {
                            self.stage = Stage::Reading(rkth);
                        }
                    },
                    Stage::EnablingPin(rkth) => {
                        self.stage = Stage::Reading(rkth);
                    },
                    _ => {
                        self.stage = Stage::Authenticating;
                    },
                }
            },
            CheckEvent::ShadowRead(shadow) => {
                if let Stage::Reading(rkth) = self.stage {
                    if rkth != shadow.rkth && shadow.secure_boot == SecureBoot::Disabled {
                        self.stage = Stage::Writing(rkth);
                    } else {
                        // With secure boot enabled, a mismatch is for the boot ROM to reject.
                        self.stage = Stage::Authenticating;
                    }
                }
            },
            CheckEvent::Authenticated(authentic) => {
                if authentic {
                    self.stage = Stage::Finished(Ok(()));
                } else {
                    self.stage = Stage::Finished(Err(BootError::Authenticate));
                }
            },
        }
        proof {
            assert forall|shadow: Shadow, authentic: bool| told_by(event, shadow, authentic) implies {
                let rest = #[trigger] old(self).remaining(shadow, authentic);
                &&& rest.len() > 0
                &&& self.spec_action() == rest[0]
                &&& self.remaining(shadow, authentic) == rest.skip(1)
            } by {
                let rest = old(self).remaining(shadow, authentic);
                assert(self.remaining(shadow, authentic) =~= rest.skip(1));
            }
        }
    }
}

/// How a check goes on from `before` to `after` when told of `event`: the next action of
/// the plan is up, for every device that would tell of that event.
pub open spec fn follows(before: ImageCheck, event: CheckEvent, after: ImageCheck) -> bool {
    forall|shadow: Shadow, authentic: bool|
        told_by(event, shadow, authentic) ==> {
            let rest = #[trigger] before.remaining(shadow, authentic);
            &&& rest.len() > 0
            &&& after.action() == rest[0]
            &&& after.remaining(shadow, authentic) == rest.skip(1)
        }
}

/// Starts the check of an image that has been copied to memory.
///
/// `image` is what was copied, `header` what could be read of its certificate block, and
/// `sha256` hashes the table of root key hashes.
pub fn check_image<E, H: FnOnce(&[u8]) -> Result<[u8; 32], E>>(
    ivt: Ivt,
    image: &[u8],
    header: Option<CertificateBlockHeader>,
    sha256: H,
    evaluation_kit: bool,
) -> (check: ImageCheck)
    requires
        image@.len() == ivt.image_len,
        header matches Some(header) ==> rkhs_offset(ivt.header_offset, header) <= ivt.image_len,
        forall|table: &[u8]|
            table@.len() == TABLE_LEN ==> #[trigger] call_requires(sha256, (table,)),
    ensures
        exists|rkth: Result<Rkth, BootError>| #[trigger]
            hashes_to(image@, ivt.header_offset, header, sha256, rkth) && check.begins(
                ivt,
                rkth,
                evaluation_kit,
            ),
{
    let rkth = image_rkth(image, ivt.header_offset, header, sha256);
    ImageCheck::from_rkth(ivt, rkth, evaluation_kit)
}

} // verus!
