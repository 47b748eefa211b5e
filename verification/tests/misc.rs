use gpui_component::crate_path::{
    FoundCrate, GpuiStep, LookupFailure, failure_message, found_crate_path, gpui_step, resolve_gpui,
};
use gpui_component::dialog::{DialogAction, DialogClose, DialogCommand, DialogFooter, DialogFooterButton};
use gpui_component::focus_visible::FocusVisible;
use gpui_component::icon::{Icon, IconName, IconNamed, clear_button_icon};
use gpui_component::size::{Axis, Size};
use gpui_component::slider::{FillDirection, Slider, SliderScale};
use gpui_component::text::{decimal_string, str_contains, to_lowercase};

#[test]
fn focus_rings_follow_the_input_modality() {
    let mut fv = FocusVisible::init();
    assert!(!fv.focus_visible());
    assert!(fv.on_keystroke());
    assert!(fv.focus_visible());
    assert!(!fv.on_keystroke());
    assert!(!fv.on_mouse_down(false));
    assert!(fv.focus_visible());
    assert!(fv.on_mouse_down(true));
    assert!(!fv.focus_visible());
    assert!(!fv.set_focus_visible(false));
}

#[test]
fn icons() {
    let icon = Icon::new(IconName::Close);
    assert_eq!(icon.path_ref().as_str(), "icons/close.svg");
    assert_eq!(IconName::Search.path(), "icons/search.svg");
    let custom = Icon::empty().path("icons/foo.svg").with_size(Size::Large);
    assert_eq!(custom.path_ref().as_str(), "icons/foo.svg");
    assert_eq!(custom.size(), Some(Size::Large));
    assert_eq!(Icon::empty().path_ref().as_str(), "");
    assert_eq!(clear_button_icon(None).path_ref().as_str(), "icons/close.svg");
    assert_eq!(
        clear_button_icon(Some(Icon::new(IconName::Inbox))).path_ref().as_str(),
        "icons/inbox.svg"
    );
}

struct Plain;
impl DialogFooterButton for Plain {}

#[test]
fn dialog_footer_buttons() {
    let mut footer = DialogFooter::new();
    footer.extend(vec![1, 2]);
    footer.extend(vec![3]);
    assert_eq!(footer.children(), &vec![1, 2, 3]);
    let mut close = DialogClose::new();
    close.extend(vec!["x"]);
    assert_eq!(close.command(), DialogCommand::CancelDialog);
    assert_eq!(close.focus_key(), "dialog-close");
    let action = DialogAction::<u8>::new();
    assert_eq!(action.command(), DialogCommand::ConfirmDialog);
    assert_eq!(action.focus_key(), "dialog-action");
    assert!(!Plain.is_cancel());
    assert!(!Plain.is_action());
}

#[test]
fn slider_scale() {
    assert_eq!(SliderScale::default(), SliderScale::Linear);
    assert!(SliderScale::Linear.is_linear());
    assert!(!SliderScale::Linear.is_logarithmic());
    assert!(SliderScale::Logarithmic.is_logarithmic());
    assert!(!SliderScale::Logarithmic.is_linear());
}

#[test]
fn text_helpers() {
    assert_eq!(decimal_string(0), "0");
    assert_eq!(decimal_string(7), "7");
    assert_eq!(decimal_string(1234), "1234");
    assert_eq!(decimal_string(usize::MAX), usize::MAX.to_string());
    assert!(str_contains("Two Handed Sword", "Hand"));
    assert!(str_contains("abc", ""));
    assert!(!str_contains("abc", "abcd"));
    assert!(!str_contains("abc", "B"));
    assert_eq!(to_lowercase("ÀB"), "àb");
}

#[test]
fn crate_path_fallback_order() {
    let ok = |n: &str| -> Result<FoundCrate, String> { Ok(FoundCrate::Name(n.to_string())) };
    let err = |e: &str| -> Result<FoundCrate, String> { Err(e.to_string()) };
    match resolve_gpui(ok("gpui_kit"), ok("gpui_pre"), ok("gpui")) {
        Ok(FoundCrate::Name(n)) => assert_eq!(n, "gpui_kit"),
        other => panic!("{other:?}"),
    }
    match resolve_gpui(err("k"), ok("gpui_pre"), ok("gpui")) {
        Ok(FoundCrate::Name(n)) => assert_eq!(n, "gpui_pre"),
        other => panic!("{other:?}"),
    }
    match resolve_gpui(err("k"), err("p"), Ok(FoundCrate::Itself)) {
        Ok(FoundCrate::Itself) => {}
        other => panic!("{other:?}"),
    }
    match resolve_gpui(err("k"), err("p"), err("g")) {
        Err(LookupFailure { kit_error, pre_error, gpui_error }) => {
            assert_eq!((kit_error.as_str(), pre_error.as_str(), gpui_error.as_str()), ("k", "p", "g"));
        }
        other => panic!("{other:?}"),
    }
    assert_eq!(found_crate_path(&FoundCrate::Itself), "crate");
    assert_eq!(found_crate_path(&FoundCrate::Name("gpui_kit".to_string())), "::gpui_kit");
    let failure = LookupFailure {
        kit_error: "a".to_string(),
        pre_error: "b".to_string(),
        gpui_error: "c".to_string(),
    };
    assert_eq!(
        failure_message(&failure),
        "IntoPlot requires a direct dependency on `gpui-kit`, `gpui-pre` or `gpui`: \
         gpui-kit lookup failed: a; gpui-pre lookup failed: b; gpui lookup failed: c"
    );
}

#[test]
fn gpui_lookups_in_order() {
    let err = |e: &str| -> Result<FoundCrate, String> { Err(e.to_string()) };
    let mut answers = Vec::new();
    assert!(matches!(gpui_step(&answers), GpuiStep::Lookup("gpui-kit")));
    answers.push(err("k"));
    assert!(matches!(gpui_step(&answers), GpuiStep::Lookup("gpui-pre")));
    answers.push(err("p"));
    assert!(matches!(gpui_step(&answers), GpuiStep::Lookup("gpui")));
    answers.push(err("g"));
    match gpui_step(&answers) {
        GpuiStep::Done(Err(failure)) => {
            assert_eq!(failure.kit_error, "k");
            assert_eq!(failure.pre_error, "p");
            assert_eq!(failure.gpui_error, "g");
        }
        other => panic!("unexpected {:?}", other),
    }
}

#[test]
fn gpui_first_found_decides() {
    let kit = vec![Ok(FoundCrate::Name("gpui_kit".to_string()))];
    match gpui_step(&kit) {
        GpuiStep::Done(Ok(FoundCrate::Name(n))) => assert_eq!(n, "gpui_kit"),
        other => panic!("unexpected {:?}", other),
    }
    let pre = vec![Err("k".to_string()), Ok(FoundCrate::Itself)];
    assert!(matches!(gpui_step(&pre), GpuiStep::Done(Ok(FoundCrate::Itself))));
    let plain = vec![Err("k".to_string()), Err("p".to_string()), Ok(FoundCrate::Name("gpui".to_string()))];
    match gpui_step(&plain) {
        GpuiStep::Done(Ok(FoundCrate::Name(n))) => assert_eq!(n, "gpui"),
        other => panic!("unexpected {:?}", other),
    }
}

#[test]
fn slider_element() {
    let s = Slider::new(3);
    assert_eq!(s.axis(), Axis::Horizontal);
    assert!(s.is_interactive());
    assert_eq!(s.fill_direction(false), FillDirection::FromMinimum);
    let s = s.vertical().reverse_fill(true).show_fill(false);
    assert_eq!(s.axis(), Axis::Vertical);
    assert_eq!(s.fill_direction(false), FillDirection::ToMaximum);
    assert_eq!(s.fill_direction(true), FillDirection::FromMinimum);
    assert!(s.bar_drags(false));
    assert!(!s.bar_drags(true));
    assert!(s.shows_focus_ring(true));
    let s = s.horizontal().disabled(true);
    assert_eq!(s.axis(), Axis::Horizontal);
    assert!(!s.is_interactive());
    assert!(!s.shows_focus_ring(true));
    assert!(!s.bar_drags(false));
}

#[test]
fn an_icon_makes_itself() {
    let sized = Icon::new(IconName::Inbox).with_size(Size::Small);
    let again = Icon::new(sized);
    assert_eq!(again.path_ref().as_str(), "icons/inbox.svg");
    assert_eq!(again.size(), Some(Size::Small));
}
