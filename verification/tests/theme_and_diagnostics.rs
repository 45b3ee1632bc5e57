use syncplus::diagnostics::{format_precheck_error, format_profile_diagnostic, peer_diagnostic_label, peer_for_path, profile_scope};
use syncplus::model::{DeletionMethod, OneWaySource, PartialTransferPolicy, SyncMode};
use syncplus::profile::{MetadataRequirements, Peer, PeerEndpoint, RetryPolicy, SshAuthentication, SshPeer, SyncOptions, SyncProfile};
use syncplus::text::decimal_text;
use syncplus::theme::{BrandTheme, Rgb, TypeRole};
use syncplus::workflow::{PrecheckBlocked, PrecheckFailure};

#[test]
fn copper_steel_danger_and_warning_are_distinct() {
    let theme = BrandTheme::desktop();
    let accents = [theme.copper, theme.steel, theme.danger, theme.warning];
    for (index, color) in accents.iter().enumerate() {
        for other in accents.iter().skip(index + 1) {
            assert_ne!(color, other, "primary, companion, danger, and warning must stay distinct");
        }
    }
}

#[test]
fn forbidden_magenta_mint_and_teal_are_absent_from_token_roles() {
    let magenta = Rgb { red: 0xFF, green: 0x00, blue: 0x99 };
    let neon_mint = Rgb { red: 0x00, green: 0xFF, blue: 0x85 };
    let teal = Rgb { red: 0x79, green: 0xD2, blue: 0xC3 };
    let roles = BrandTheme::desktop().roles();
    assert_eq!(roles.len(), 28);
    for (role, color) in roles {
        assert_ne!(color, magenta, "{role} must not be magenta");
        assert_ne!(color, neon_mint, "{role} must not be neon mint");
        assert_ne!(color, teal, "{role} must not be teal");
    }
}

#[test]
fn every_appearance_is_the_desktop_theme() {
    assert_eq!(BrandTheme::dark(), BrandTheme::desktop());
    assert_eq!(BrandTheme::light(), BrandTheme::desktop());
    assert_eq!(BrandTheme::for_dark_mode(true), BrandTheme::desktop());
    assert_eq!(BrandTheme::desktop().canvas, Rgb { red: 0x0F, green: 0x3A, blue: 0x6B });
    assert_eq!(BrandTheme::desktop().roles()[0].0, "canvas");
}

#[test]
fn type_roles_are_eyebrow_title_body_and_caption_in_a_tool_range() {
    assert_eq!(TypeRole::Eyebrow.points(), 12);
    assert_eq!(TypeRole::Title.points(), 20);
    assert_eq!(TypeRole::Body.points(), 14);
    assert_eq!(TypeRole::Caption.points(), 12);
    assert!(TypeRole::Title.points() <= 24);
}

fn options() -> SyncOptions {
    SyncOptions {
        metadata: MetadataRequirements {
            empty_directories: true,
            symlinks: true,
            executable_bits: true,
            timestamps: false,
            ownership: false,
            access_control_lists: false,
            extended_attributes: false,
        },
        safe_delete: false,
        destination_cleanup: false,
        deletion_method: Some(DeletionMethod::Trash),
        partial_transfer_policy: PartialTransferPolicy::Cleanup,
        retry_policy: RetryPolicy { max_attempts: 3, initial_delay_millis: 1000 },
    }
}

fn ssh_profile() -> SyncProfile {
    SyncProfile {
        name: "Documents backup".to_owned(),
        peer_a: Peer { name: "Laptop".to_owned(), endpoint: PeerEndpoint::Local { root: "/home/user/Documents".to_owned() } },
        peer_b: Peer {
            name: "Backup disk".to_owned(),
            endpoint: PeerEndpoint::Ssh(SshPeer {
                server: "backup.example.com".to_owned(),
                username: "sync-user".to_owned(),
                port: 22,
                identity: None,
                authentication: SshAuthentication::Agent,
                remote_path: "/srv/backup".to_owned(),
            }),
        },
        mode: SyncMode::OneWay,
        source: OneWaySource::PeerA,
        options: options(),
        exclusions: Vec::new(),
    }
}

#[test]
fn ssh_precheck_message_identifies_peer_account_scope_and_next_action() {
    let profile = ssh_profile();
    let message = format_profile_diagnostic(&profile, Some("/srv/backup"), "remote precheck is not proven", "Keep execution blocked.");
    assert!(message.contains("Profile: Documents backup"));
    assert!(message.contains("Peer: Backup disk (account sync-user@backup.example.com:22)"));
    assert!(message.contains("Account: sync-user"));
    assert!(message.contains("Scope: /srv/backup"));
    assert!(message.contains("Reason:"));
    assert!(message.contains("Next action:"));
    assert!(!message.contains("test-only-secret"));
}

#[test]
fn local_diagnostics_name_the_mapping_and_no_account() {
    let mut profile = ssh_profile();
    profile.peer_b = Peer { name: "Backup disk".to_owned(), endpoint: PeerEndpoint::Local { root: "/mnt/backup".to_owned() } };
    assert_eq!(profile_scope(&profile), "/home/user/Documents -> /mnt/backup");
    let text = format_profile_diagnostic(&profile, None, "line one\nline two", "Retry.");
    assert_eq!(
        text,
        "Profile: Documents backup | Peer: Laptop (local) | Account: not applicable (local peer) | \
         Scope: /home/user/Documents -> /mnt/backup | Reason: line one line two | Next action: Retry."
    );
    assert_eq!(peer_for_path(&profile, "/mnt/backup/photos").name, "Backup disk");
    assert_eq!(peer_for_path(&profile, "/mnt/backup2").name, "Laptop");
    profile.mode = SyncMode::Mirror;
    assert_eq!(profile_scope(&profile), "Peer A /home/user/Documents <-> Peer B /mnt/backup");
    let blocked = PrecheckFailure::Blocked(PrecheckBlocked {
        blockers: vec!["disk missing".to_owned(), "read-only".to_owned()],
        replacement_only: false,
        source_volume: None,
        destination_volume: None,
    });
    assert!(format_precheck_error(&profile, &blocked).contains("Reason: disk missing; read-only"));
    let invalid = PrecheckFailure::InvalidSpecification("no exclusions".to_owned());
    assert!(format_precheck_error(&profile, &invalid).contains("Reason: invalid profile: no exclusions"));
}

#[test]
fn peer_labels_include_the_ssh_account() {
    let profile = ssh_profile();
    assert_eq!(peer_diagnostic_label(&profile.peer_b), "Backup disk (account sync-user@backup.example.com:22)");
    assert_eq!(peer_diagnostic_label(&profile.peer_a), "Laptop (local)");
}

#[test]
fn numbers_are_written_in_decimal() {
    assert_eq!(decimal_text(0), "0");
    assert_eq!(decimal_text(7), "7");
    assert_eq!(decimal_text(1234), "1234");
    assert_eq!(decimal_text(u64::MAX), "18446744073709551615");
}

#[test]
fn icon_pixels_are_painted_in_place_and_outside_pixels_are_ignored() {
    let size = 3;
    let mut rgba = vec![0u8; size * size * 4];
    syncplus::icon::set_icon_pixel(&mut rgba, size, 1, 2, [10, 20, 30, 255]);
    let start = (2 * size + 1) * 4;
    assert_eq!(&rgba[start..start + 4], &[10, 20, 30, 255]);
    assert_eq!(rgba.iter().filter(|byte| **byte != 0).count(), 4);
    let before = rgba.clone();
    syncplus::icon::set_icon_pixel(&mut rgba, size, 3, 0, [1, 1, 1, 1]);
    syncplus::icon::set_icon_pixel(&mut rgba, size, 0, 7, [1, 1, 1, 1]);
    assert_eq!(rgba, before);
}

fn rgb(red: u8, green: u8, blue: u8) -> Rgb {
    Rgb { red, green, blue }
}

fn relative_luminance(color: Rgb) -> f32 {
    fn linear_channel(channel: u8) -> f32 {
        let channel = f32::from(channel) / 255.0;
        if channel <= 0.04045 {
            channel / 12.92
        } else {
            ((channel + 0.055) / 1.055).powf(2.4)
        }
    }
    0.2126 * linear_channel(color.red) + 0.7152 * linear_channel(color.green) + 0.0722 * linear_channel(color.blue)
}

fn contrast_ratio(foreground: Rgb, background: Rgb) -> f32 {
    let foreground = relative_luminance(foreground);
    let background = relative_luminance(background);
    (foreground.max(background) + 0.05) / (foreground.min(background) + 0.05)
}

#[test]
fn desktop_appearance_is_navy_rail_white_workspace_and_blue_accent() {
    let theme = BrandTheme::desktop();
    assert_eq!(theme.canvas, rgb(0x0F, 0x3A, 0x6B));
    assert_eq!(theme.surface, rgb(0xFF, 0xFF, 0xFF));
    assert_eq!(theme.field, rgb(0xFF, 0xFF, 0xFF));
    assert_eq!(theme.copper, rgb(0x15, 0x65, 0xC0));
    assert_eq!(theme.steel, rgb(0x1E, 0x4E, 0x8C));
    assert_eq!(BrandTheme::dark(), theme);
    assert_eq!(BrandTheme::light(), theme);
    assert_eq!(BrandTheme::for_dark_mode(true), theme);
    assert_eq!(BrandTheme::for_dark_mode(false), theme);
}

#[test]
fn desktop_exposes_the_full_token_role_set() {
    let roles: Vec<&str> = BrandTheme::desktop().roles().into_iter().map(|(role, _)| role).collect();
    for required in [
        "canvas",
        "on_canvas",
        "on_canvas_muted",
        "surface",
        "elevated",
        "field",
        "text",
        "muted",
        "border",
        "copper",
        "on_copper",
        "copper_soft",
        "steel",
        "on_steel",
        "steel_soft",
        "danger",
        "on_danger",
        "danger_soft",
        "on_danger_soft",
        "warning",
        "on_warning",
        "warning_soft",
        "success",
        "on_success",
        "success_soft",
        "on_success_soft",
    ] {
        assert!(roles.contains(&required), "desktop appearance is missing token role {required}");
    }
}

#[test]
fn body_muted_on_accent_and_rail_text_meet_contrast() {
    let theme = BrandTheme::desktop();
    for (label, foreground, background) in [
        ("body on surface", theme.text, theme.surface),
        ("muted on surface", theme.muted, theme.surface),
        ("on-accent on copper", theme.on_copper, theme.copper),
        ("danger-on-soft", theme.on_danger_soft, theme.danger_soft),
        ("success-on-soft", theme.on_success_soft, theme.success_soft),
        ("on-canvas on rail", theme.on_canvas, theme.canvas),
        ("on-canvas-muted on rail", theme.on_canvas_muted, theme.canvas),
        ("on-success on success", theme.on_success, theme.success),
    ] {
        assert!(
            contrast_ratio(foreground, background) >= 4.5,
            "{label} must meet 4.5:1, got {:.2}",
            contrast_ratio(foreground, background)
        );
    }
}
