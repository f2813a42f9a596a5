use ec_slimloader::check::{
    check_image, CheckAction, CheckEvent, ImageCheck, SecureBoot, Shadow,
};
use ec_slimloader::error::BootError;
use ec_slimloader::image::{CertificateBlockHeader, Ivt};
use ec_slimloader::rkh::Rkth;

const IVT: Ivt = Ivt { target_ptr: 0x1000_0000, image_len: 300, header_offset: 100 };
const IMAGE_RKTH: Rkth = Rkth([1; 32]);
const DEVICE_RKTH: Rkth = Rkth([2; 32]);

const AUTHENTICATE: CheckAction =
    CheckAction::Authenticate { target_ptr: 0x1000_0000, image_len: 300 };

fn shadow(secure_boot: SecureBoot, rkth: Rkth) -> Shadow {
    Shadow { secure_boot, rkth }
}

/// Everything that the check does on the given device.
fn actions(mut check: ImageCheck, shadow: Shadow, authentic: bool) -> Vec<CheckAction> {
    let mut done = Vec::new();
    loop {
        let action = check.action();
        done.push(action);
        match action {
            CheckAction::ReloadShadow
            | CheckAction::EnableResetPin { .. }
            | CheckAction::WriteRkth(_) => check.advance(CheckEvent::Done),
            CheckAction::ReadShadow => check.advance(CheckEvent::ShadowRead(shadow)),
            CheckAction::Authenticate { .. } => check.advance(CheckEvent::Authenticated(authentic)),
            CheckAction::Finish(_) => return done,
        }
    }
}

fn checked(evaluation_kit: bool, shadow: Shadow, authentic: bool) -> Vec<CheckAction> {
    actions(ImageCheck::from_rkth(IVT, Ok(IMAGE_RKTH), evaluation_kit), shadow, authentic)
}

#[test]
fn development_mode_takes_over_the_image_hash() {
    assert_eq!(
        checked(false, shadow(SecureBoot::Disabled, DEVICE_RKTH), true),
        vec![
            CheckAction::ReloadShadow,
            CheckAction::ReadShadow,
            CheckAction::WriteRkth(IMAGE_RKTH),
            AUTHENTICATE,
            CheckAction::Finish(Ok(())),
        ]
    );
}

#[test]
fn secure_device_keeps_its_hash() {
    assert_eq!(
        checked(false, shadow(SecureBoot::Enabled, DEVICE_RKTH), false),
        vec![
            CheckAction::ReloadShadow,
            CheckAction::ReadShadow,
            AUTHENTICATE,
            CheckAction::Finish(Err(BootError::Authenticate)),
        ]
    );
}

#[test]
fn concurring_hashes_are_left_alone() {
    for secure_boot in [SecureBoot::Disabled, SecureBoot::Enabled] {
        assert_eq!(
            checked(false, shadow(secure_boot, IMAGE_RKTH), true),
            vec![
                CheckAction::ReloadShadow,
                CheckAction::ReadShadow,
                AUTHENTICATE,
                CheckAction::Finish(Ok(())),
            ]
        );
    }
}

#[test]
fn boot_rom_decides_even_where_hashes_concur() {
    let done = checked(false, shadow(SecureBoot::Enabled, IMAGE_RKTH), false);
    assert_eq!(done.last(), Some(&CheckAction::Finish(Err(BootError::Authenticate))));
}

#[test]
fn evaluation_kit_gets_its_reset_pin() {
    assert_eq!(
        checked(true, shadow(SecureBoot::Disabled, DEVICE_RKTH), true),
        vec![
            CheckAction::ReloadShadow,
            CheckAction::EnableResetPin { port: 2, num: 12 },
            CheckAction::ReadShadow,
            CheckAction::WriteRkth(IMAGE_RKTH),
            AUTHENTICATE,
            CheckAction::Finish(Ok(())),
        ]
    );
}

#[test]
fn unreadable_image_leaves_the_device_alone() {
    for error in [BootError::TooLarge, BootError::Hash] {
        let check = ImageCheck::from_rkth(IVT, Err(error), true);
        assert_eq!(
            actions(check, shadow(SecureBoot::Disabled, DEVICE_RKTH), true),
            vec![CheckAction::Finish(Err(error))]
        );
    }
}

#[test]
fn image_is_checked_by_its_own_table() {
    let mut image = vec![0u8; 300];
    image[150] = 77;
    let header = CertificateBlockHeader { header_length: 0x20, certificate_table_length: 18 };
    let first_byte = |table: &[u8]| Ok::<_, ()>([table[0]; 32]);
    let device = shadow(SecureBoot::Disabled, DEVICE_RKTH);

    let check = check_image(IVT, &image, Some(header), first_byte, false);
    assert!(actions(check, device, true).contains(&CheckAction::WriteRkth(Rkth([77; 32]))));

    let check = check_image(IVT, &image, None, first_byte, false);
    assert_eq!(check.action(), CheckAction::Finish(Err(BootError::TooLarge)));

    let fails = |_: &[u8]| -> Result<[u8; 32], ()> { Err(()) };
    let check = check_image(IVT, &image, Some(header), fails, false);
    assert_eq!(check.action(), CheckAction::Finish(Err(BootError::Hash)));
}
