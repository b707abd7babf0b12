use xplm_egui::draw::{
    draw_registration_result, texture_number_count, Error, GraphicsState, GraphicsStateCall,
    Phase,
};

#[test]
fn phase_codes_follow_the_sdk() {
    assert_eq!(Phase::AfterPanel.to_xplm(), 40);
    assert_eq!(Phase::AfterGauges.to_xplm(), 45);
    assert_eq!(Phase::AfterWindows.to_xplm(), 50);
    assert_eq!(Phase::AfterLocalMap3D.to_xplm(), 100);
    assert_eq!(Phase::AfterLocalMap2D.to_xplm(), 101);
    assert_eq!(Phase::AfterLocalMapProfile.to_xplm(), 102);
}

#[test]
fn phase_codes_are_distinct() {
    let all = [
        Phase::AfterPanel,
        Phase::AfterGauges,
        Phase::AfterWindows,
        Phase::AfterLocalMap3D,
        Phase::AfterLocalMap2D,
        Phase::AfterLocalMapProfile,
    ];
    for a in all {
        for b in all {
            assert_eq!(a.to_xplm() == b.to_xplm(), a == b);
        }
    }
}

#[test]
fn registration_succeeds_only_on_status_one() {
    assert_eq!(draw_registration_result(Phase::AfterWindows, 1), Ok(()));
    assert_eq!(
        draw_registration_result(Phase::AfterWindows, 0),
        Err(Error::UnsupportedPhase(Phase::AfterWindows))
    );
    assert_eq!(
        draw_registration_result(Phase::AfterPanel, -1),
        Err(Error::UnsupportedPhase(Phase::AfterPanel))
    );
}

#[test]
fn graphics_state_new_is_all_off() {
    let s = GraphicsState::new();
    assert!(!s.fog && !s.lighting && !s.alpha_testing && !s.alpha_blending);
    assert!(!s.depth_testing && !s.depth_writing);
    assert_eq!(s.textures, 0);
    assert_eq!(s, GraphicsState::default());
}

#[test]
fn graphics_state_builders_set_one_field() {
    let base = GraphicsState::new();
    assert_eq!(base.fog(true), GraphicsState { fog: true, ..base });
    assert_eq!(base.lighting(true), GraphicsState { lighting: true, ..base });
    assert_eq!(base.alpha_testing(true), GraphicsState { alpha_testing: true, ..base });
    assert_eq!(base.alpha_blending(true), GraphicsState { alpha_blending: true, ..base });
    assert_eq!(base.depth_testing(true), GraphicsState { depth_testing: true, ..base });
    assert_eq!(base.depth_writing(true), GraphicsState { depth_writing: true, ..base });
    assert_eq!(base.textures(3), GraphicsState { textures: 3, ..base });
    let s = base.fog(true).fog(false);
    assert_eq!(s, base);
}

#[test]
fn graphics_state_apply_orders_arguments() {
    let s = GraphicsState::new().fog(true).depth_writing(true).textures(2);
    assert_eq!(
        s.apply(),
        GraphicsStateCall {
            fog: 1,
            number_tex_units: 2,
            lighting: 0,
            alpha_testing: 0,
            alpha_blending: 0,
            depth_testing: 0,
            depth_writing: 1,
        }
    );
}

#[test]
fn texture_number_count_is_capped() {
    assert_eq!(texture_number_count(0), 0);
    assert_eq!(texture_number_count(1), 1);
    assert_eq!(texture_number_count(i32::MAX as usize - 1), i32::MAX - 1);
    assert_eq!(texture_number_count(i32::MAX as usize), i32::MAX);
    assert_eq!(texture_number_count(usize::MAX), i32::MAX);
}
