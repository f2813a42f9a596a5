//! What holds of every check of an image.
#[allow(unused_imports)]
use crate::check::{
    answers, check_plan, follows, told_by, CheckAction, CheckEvent, ImageCheck, SecureBoot, Shadow,
};
#[allow(unused_imports)]
use crate::error::BootError;
#[allow(unused_imports)]
use crate::image::Ivt;
#[allow(unused_imports)]
use crate::rkh::Rkth;
use vstd::prelude::*;

verus! {

/// Whether `run` is what a check goes through when told of `events`, one after the other.
pub open spec fn is_run(run: Seq<ImageCheck>, events: Seq<CheckEvent>) -> bool {
    &&& run.len() == events.len() + 1
    &&& forall|i: int|
        0 <= i < events.len() ==> {
            &&& answers(#[trigger] events[i], run[i].action())
            &&& follows(run[i], events[i], run[i + 1])
        }
}

/// The root key table hash in the shadow registers before the action at `i`, where they
/// held `initial` after they were reloaded.
pub open spec fn rkth_at(initial: Rkth, actions: Seq<CheckAction>, i: nat) -> Rkth
    decreases i,
{
    if i == 0 {
        initial
    } else {
        match actions[i - 1] {
            CheckAction::WriteRkth(rkth) => rkth,
            _ => rkth_at(initial, actions, (i - 1) as nat),
        }
    }
}

/// A check does what the plan for its device says, in order.
pub proof fn law_run_follows_plan(
    ivt: Ivt,
    image_rkth: Result<Rkth, BootError>,
    evaluation_kit: bool,
    shadow: Shadow,
    authentic: bool,
    run: Seq<ImageCheck>,
    events: Seq<CheckEvent>,
    i: int,
)
    requires
        is_run(run, events),
        run[0].begins(ivt, image_rkth, evaluation_kit),
        forall|j: int| 0 <= j < events.len() ==> told_by(#[trigger] events[j], shadow, authentic),
        0 <= i < run.len(),
    ensures
        ({
            let plan = check_plan(ivt, image_rkth, evaluation_kit, shadow, authentic);
            &&& i < plan.len()
            &&& run[i].action() == plan[i]
            &&& run[i].remaining(shadow, authentic) == plan.skip(i + 1)
        }),
    decreases i,
{
    let plan = check_plan(ivt, image_rkth, evaluation_kit, shadow, authentic);
    if i > 0 {
        law_run_follows_plan(
            ivt,
            image_rkth,
            evaluation_kit,
            shadow,
            authentic,
            run,
            events,
            i - 1,
        );
        assert(told_by(events[i - 1], shadow, authentic));
        assert(run[i - 1].remaining(shadow, authentic) == plan.skip(i));
        assert(plan.skip(i).skip(1) =~= plan.skip(i + 1));
    } else {
        assert(run[0].remaining(shadow, authentic) == plan.skip(1));
    }
}

/// Whatever comes of an action can be told: that it is done, any content of the shadow
/// registers, and both findings of the boot ROM. Nothing else is asked for, and nothing
/// comes of the end.
pub proof fn law_every_outcome_can_be_told(action: CheckAction, event: CheckEvent)
    ensures
        answers(event, action) <==> match event {
            CheckEvent::Done => {
                ||| action == CheckAction::ReloadShadow
                ||| action is EnableResetPin
                ||| action is WriteRkth
            },
            CheckEvent::ShadowRead(_) => action == CheckAction::ReadShadow,
            CheckEvent::Authenticated(_) => action is Authenticate,
        },
{
}

/// Every device can tell what its shadow registers hold and what its boot ROM has found,
/// and no device tells anything else.
pub proof fn law_device_tells_what_is(
    shadow: Shadow,
    other: Shadow,
    authentic: bool,
    finding: bool,
)
    ensures
        told_by(CheckEvent::Done, shadow, authentic),
        told_by(CheckEvent::ShadowRead(other), shadow, authentic) <==> other == shadow,
        told_by(CheckEvent::Authenticated(finding), shadow, authentic) <==> finding == authentic,
{
}

/// What is done of an image with a root key table hash, from the first action to the last.
///
/// The hash is written exactly where the device is in development mode and one of the 32
/// bytes differs. The reset pin is set up exactly on an evaluation kit.
pub proof fn law_check_in_full(
    ivt: Ivt,
    rkth: Rkth,
    evaluation_kit: bool,
    shadow: Shadow,
    authentic: bool,
)
    ensures
        ({
            let plan = check_plan(ivt, Ok(rkth), evaluation_kit, shadow, authentic);
            let pin = CheckAction::EnableResetPin { port: 2, num: 12 };
            let authenticate = CheckAction::Authenticate {
                target_ptr: ivt.target_ptr,
                image_len: ivt.image_len as u32,
            };
            let differs = exists|j: int|
                0 <= j < 32 && #[trigger] rkth.0@[j] != shadow.rkth.0@[j];
            let writes = shadow.secure_boot == SecureBoot::Disabled && differs;
            let end = if authentic {
                CheckAction::Finish(Ok(()))
            } else {
                CheckAction::Finish(Err(BootError::Authenticate))
            };
            &&& evaluation_kit && writes ==> plan == seq![
                CheckAction::ReloadShadow,
                pin,
                CheckAction::ReadShadow,
                CheckAction::WriteRkth(rkth),
                authenticate,
                end,
            ]
            &&& evaluation_kit && !writes ==> plan == seq![
                CheckAction::ReloadShadow,
                pin,
                CheckAction::ReadShadow,
                authenticate,
                end,
            ]
            &&& !evaluation_kit && writes ==> plan == seq![
                CheckAction::ReloadShadow,
                CheckAction::ReadShadow,
                CheckAction::WriteRkth(rkth),
                authenticate,
                end,
            ]
            &&& !evaluation_kit && !writes ==> plan == seq![
                CheckAction::ReloadShadow,
                CheckAction::ReadShadow,
                authenticate,
                end,
            ]
        }),
{
    let plan = check_plan(ivt, Ok(rkth), evaluation_kit, shadow, authentic);
    let pin = CheckAction::EnableResetPin { port: 2, num: 12 };
    let authenticate = CheckAction::Authenticate {
        target_ptr: ivt.target_ptr,
        image_len: ivt.image_len as u32,
    };
    let differs = exists|j: int| 0 <= j < 32 && #[trigger] rkth.0@[j] != shadow.rkth.0@[j];
    let writes = shadow.secure_boot == SecureBoot::Disabled && differs;
    let end = if authentic {
        CheckAction::Finish(Ok(()))
    } else {
        CheckAction::Finish(Err(BootError::Authenticate))
    };
    if !differs {
        assert forall|j: int| 0 <= j < 32 implies rkth.0@[j] == shadow.rkth.0@[j] by {
            assert(!(rkth.0@[j] != shadow.rkth.0@[j]));
        }
        assert(rkth.0@ =~= shadow.rkth.0@);
    }
    if evaluation_kit && writes {
        assert(plan =~= seq![
            CheckAction::ReloadShadow,
            pin,
            CheckAction::ReadShadow,
            CheckAction::WriteRkth(rkth),
            authenticate,
            end,
        ]);
    } else if evaluation_kit {
        assert(plan =~= seq![
            CheckAction::ReloadShadow,
            pin,
            CheckAction::ReadShadow,
            authenticate,
            end,
        ]);
    } else if writes {
        assert(plan =~= seq![
            CheckAction::ReloadShadow,
            CheckAction::ReadShadow,
            CheckAction::WriteRkth(rkth),
            authenticate,
            end,
        ]);
    } else {
        assert(plan =~= seq![
            CheckAction::ReloadShadow,
            CheckAction::ReadShadow,
            authenticate,
            end,
        ]);
    }
}

/// The reset pin of an evaluation kit is set up for every image with a root key table hash:
/// once, as pin 12 of port 2, after the shadow registers have been reloaded and before they
/// are read. On no other board is a reset pin set up.
pub proof fn law_reset_pin(
    ivt: Ivt,
    rkth: Rkth,
    evaluation_kit: bool,
    shadow: Shadow,
    authentic: bool,
    i: int,
    j: int,
)
    ensures
        ({
            let plan = check_plan(ivt, Ok(rkth), evaluation_kit, shadow, authentic);
            let pin = CheckAction::EnableResetPin { port: 2, num: 12 };
            &&& plan.contains(pin) <==> evaluation_kit
            &&& 0 <= i < plan.len() && plan[i] is EnableResetPin ==> plan[i] == pin
            &&& 0 <= i < plan.len() && 0 <= j < plan.len() && plan[i] is EnableResetPin ==> {
                &&& plan[j] is EnableResetPin ==> i == j
                &&& plan[j] is ReloadShadow ==> j < i
                &&& plan[j] is ReadShadow ==> i < j
            }
        }),
{
    law_check_in_full(ivt, rkth, evaluation_kit, shadow, authentic);
    let plan = check_plan(ivt, Ok(rkth), evaluation_kit, shadow, authentic);
    if evaluation_kit {
        assert(plan[1] == CheckAction::EnableResetPin { port: 2, num: 12 });
    }
}

/// The hash in the shadow registers is overwritten, with the image's, exactly where the
/// device is in development mode and the two hashes differ.
pub proof fn law_rkth_is_written_where_it_differs(
    ivt: Ivt,
    rkth: Rkth,
    evaluation_kit: bool,
    shadow: Shadow,
    authentic: bool,
    i: int,
)
    ensures
        ({
            let plan = check_plan(ivt, Ok(rkth), evaluation_kit, shadow, authentic);
            &&& plan.contains(CheckAction::WriteRkth(rkth)) <==> shadow.secure_boot
                == SecureBoot::Disabled && rkth.0@ != shadow.rkth.0@
            &&& 0 <= i < plan.len() && plan[i] is WriteRkth ==> plan[i] == CheckAction::WriteRkth(
                rkth,
            )
        }),
{
    law_check_in_full(ivt, rkth, evaluation_kit, shadow, authentic);
    let plan = check_plan(ivt, Ok(rkth), evaluation_kit, shadow, authentic);
    if shadow.secure_boot == SecureBoot::Disabled && rkth.0@ != shadow.rkth.0@ {
        if forall|j: int| 0 <= j < 32 ==> !(#[trigger] rkth.0@[j] != shadow.rkth.0@[j]) {
            assert forall|j: int| 0 <= j < 32 implies rkth.0@[j] == shadow.rkth.0@[j] by {
                assert(!(rkth.0@[j] != shadow.rkth.0@[j]));
            }
            assert(rkth.0@ =~= shadow.rkth.0@);
        }
        assert(plan[if evaluation_kit {
            3int
        } else {
            2int
        }] == CheckAction::WriteRkth(rkth));
    }
}

/// A check comes to an end, and does so once. It is passed exactly where the image has a
/// root key table hash and the boot ROM finds it authentic.
pub proof fn law_verdict(
    ivt: Ivt,
    image_rkth: Result<Rkth, BootError>,
    evaluation_kit: bool,
    shadow: Shadow,
    authentic: bool,
)
    ensures
        ({
            let plan = check_plan(ivt, image_rkth, evaluation_kit, shadow, authentic);
            &&& 1 <= plan.len() <= 6
            &&& plan.last() is Finish
            &&& forall|i: int| 0 <= i < plan.len() - 1 ==> !((#[trigger] plan[i]) is Finish)
            &&& plan.last() == CheckAction::Finish(Ok(())) <==> image_rkth is Ok && authentic
            &&& image_rkth is Ok && !authentic ==> plan.last() == CheckAction::Finish(
                Err(BootError::Authenticate),
            )
            &&& image_rkth matches Err(error) ==> plan.last() == CheckAction::Finish(Err(error))
        }),
{
}

/// An image without a root key table hash is turned down with the reason, and the device is
/// left alone.
pub proof fn law_unreadable_image_is_turned_down(
    ivt: Ivt,
    error: BootError,
    evaluation_kit: bool,
    shadow: Shadow,
    authentic: bool,
)
    ensures
        check_plan(ivt, Err(error), evaluation_kit, shadow, authentic) == seq![
            CheckAction::Finish(Err(error)),
        ],
{
}

/// Every image with a root key table hash is handed to the boot ROM, whole, once, and as
/// the last thing that is done, whether the hashes concur or not.
pub proof fn law_boot_rom_decides(
    ivt: Ivt,
    rkth: Rkth,
    evaluation_kit: bool,
    shadow: Shadow,
    authentic: bool,
    i: int,
)
    ensures
        ({
            let plan = check_plan(ivt, Ok(rkth), evaluation_kit, shadow, authentic);
            0 <= i < plan.len() ==> {
                if i == plan.len() - 2 {
                    plan[i] == CheckAction::Authenticate {
                        target_ptr: ivt.target_ptr,
                        image_len: ivt.image_len as u32,
                    }
                } else {
                    !(plan[i] is Authenticate)
                }
            }
        }),
{
}

/// With secure boot enabled the device's root key table hash is never overwritten.
pub proof fn law_secure_boot_keeps_rkth(
    ivt: Ivt,
    image_rkth: Result<Rkth, BootError>,
    evaluation_kit: bool,
    shadow: Shadow,
    authentic: bool,
    i: int,
)
    requires
        shadow.secure_boot is Enabled,
    ensures
        ({
            let plan = check_plan(ivt, image_rkth, evaluation_kit, shadow, authentic);
            0 <= i < plan.len() ==> !(plan[i] is WriteRkth)
        }),
{
}

/// The hash that the boot ROM finds in the shadow registers is the image's own in
/// development mode, and the device's with secure boot enabled.
pub proof fn law_authenticated_against(
    ivt: Ivt,
    rkth: Rkth,
    evaluation_kit: bool,
    shadow: Shadow,
    authentic: bool,
)
    ensures
        ({
            let plan = check_plan(ivt, Ok(rkth), evaluation_kit, shadow, authentic);
            let found = rkth_at(shadow.rkth, plan, (plan.len() - 2) as nat);
            &&& plan[plan.len() - 2] is Authenticate
            &&& shadow.secure_boot is Disabled ==> found.0@ == rkth.0@
            &&& shadow.secure_boot is Enabled ==> found.0@ == shadow.rkth.0@
        }),
{
    reveal_with_fuel(rkth_at, 6);
}

/// The shadow registers are reloaded before anything else. They are read once, and written
/// only after that.
pub proof fn law_reloaded_before_read(
    ivt: Ivt,
    rkth: Rkth,
    evaluation_kit: bool,
    shadow: Shadow,
    authentic: bool,
    i: int,
    j: int,
)
    ensures
        ({
            let plan = check_plan(ivt, Ok(rkth), evaluation_kit, shadow, authentic);
            &&& plan[0] == CheckAction::ReloadShadow
            &&& plan.contains(CheckAction::ReadShadow)
            &&& 0 < i < plan.len() ==> !(plan[i] is ReloadShadow)
            &&& 0 <= i < plan.len() && 0 <= j < plan.len() && plan[i] is ReadShadow ==> {
                &&& plan[j] is ReadShadow ==> i == j
                &&& plan[j] is WriteRkth ==> i < j
            }
        }),
{
    let plan = check_plan(ivt, Ok(rkth), evaluation_kit, shadow, authentic);
    assert(plan[if evaluation_kit {
        2int
    } else {
        1int
    }] == CheckAction::ReadShadow);
}

} // verus!
