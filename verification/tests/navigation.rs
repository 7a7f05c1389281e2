use cc_switch_tui::app_type::{is_lightweight_preseed_app, AppType};
use cc_switch_tui::route::{NavItem, Route};

fn place(items: &[NavItem], wanted: NavItem) -> usize {
    items
        .iter()
        .position(|item| *item == wanted)
        .expect("nav item should exist")
}

#[test]
fn skills_appears_before_prompts_in_nav() {
    let skills = place(&NavItem::ALL, NavItem::Skills);
    let prompts = place(&NavItem::ALL, NavItem::Prompts);

    assert!(
        skills < prompts,
        "skills should appear above prompts in the left nav"
    );
}

#[test]
fn sessions_appears_after_mcp_and_skills_before_prompts_in_nav() {
    let sessions = place(&NavItem::ALL, NavItem::Sessions);
    let mcp = place(&NavItem::ALL, NavItem::Mcp);
    let skills = place(&NavItem::ALL, NavItem::Skills);
    let prompts = place(&NavItem::ALL, NavItem::Prompts);

    assert!(mcp < sessions && skills < sessions && sessions < prompts);
}

#[test]
fn usage_appears_after_prompts_before_config_in_nav() {
    let prompts = place(&NavItem::ALL, NavItem::Prompts);
    let usage = place(&NavItem::ALL, NavItem::Usage);
    let config = place(&NavItem::ALL, NavItem::Config);

    assert!(prompts < usage && usage < config);
}

#[test]
fn pricing_is_not_a_top_level_nav_item() {
    for nav_items in [
        NavItem::ALL.as_slice(),
        NavItem::OPENCLAW_ALL.as_slice(),
        NavItem::HERMES_ALL.as_slice(),
    ] {
        assert!(nav_items
            .iter()
            .all(|item| item.to_route() != Some(Route::Pricing)));
    }
}

#[test]
fn hermes_nav_uses_memory_instead_of_prompts() {
    assert!(NavItem::HERMES_ALL
        .iter()
        .any(|item| matches!(item, NavItem::HermesMemory)));
    assert!(NavItem::HERMES_ALL
        .iter()
        .any(|item| matches!(item, NavItem::Config)));
    assert!(!NavItem::HERMES_ALL
        .iter()
        .any(|item| matches!(item, NavItem::Prompts)));
}

#[test]
fn openclaw_nav_keeps_generic_config_entry() {
    assert!(NavItem::OPENCLAW_ALL
        .iter()
        .any(|item| matches!(item, NavItem::Config)));
}

#[test]
fn every_app_has_its_own_column() {
    assert_eq!(NavItem::all_for_app(&AppType::Codex), &NavItem::ALL[..]);
    assert_eq!(
        NavItem::all_for_app(&AppType::Hermes),
        &NavItem::HERMES_ALL[..]
    );
    assert_eq!(
        NavItem::all_for_app(&AppType::OpenClaw),
        &NavItem::OPENCLAW_ALL[..]
    );
}

#[test]
fn exit_opens_no_screen() {
    assert_eq!(NavItem::Exit.to_route(), None);
    assert_eq!(NavItem::Mcp.to_route(), Some(Route::Mcp));
}

#[test]
fn lightweight_preseed_excludes_additive_apps() {
    assert!(is_lightweight_preseed_app(&AppType::Claude));
    assert!(is_lightweight_preseed_app(&AppType::Codex));
    assert!(is_lightweight_preseed_app(&AppType::Gemini));
    assert!(!is_lightweight_preseed_app(&AppType::OpenCode));
    assert!(!is_lightweight_preseed_app(&AppType::Hermes));
    assert!(!is_lightweight_preseed_app(&AppType::OpenClaw));
}
