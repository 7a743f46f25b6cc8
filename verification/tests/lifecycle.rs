use stereokit::lifecycle::{asset_releaseref, Asset, InitGate, SkError, StereoKit};
use stereokit::material::Material;
use stereokit::resources::{Model, Shader, Texture};
use stereokit::settings::Settings;

fn fresh_runtime(gate: &mut InitGate) -> StereoKit {
    assert!(Settings::default().init(gate).is_some());
    gate.confirm_init(true).expect("native init succeeded")
}

#[test]
fn init_twice_without_shutdown_yields_absence_the_second_time() {
    let mut gate = InitGate::new();
    let first = Settings::default().init(&gate);
    assert!(first.is_some());
    let handle = gate.confirm_init(true).expect("native init succeeded");
    let second = Settings::default().init(&gate);
    assert!(second.is_none());
    assert!(handle.dispose(&mut gate));
}

#[test]
fn native_init_failure_leaves_the_gate_free() {
    let mut gate = InitGate::new();
    assert!(Settings::default().init(&gate).is_some());
    assert!(gate.confirm_init(false).is_none());
    assert!(!gate.is_busy());
    assert!(Settings::default().init(&gate).is_some());
}

#[test]
fn gate_is_reusable_after_the_run_loop_completes() {
    let mut gate = InitGate::new();
    let mut handle = fresh_runtime(&mut gate);
    let mut session = handle.run().expect("first run enters the loop");
    let _ctx = session.frame();
    session.close(&mut gate);
    assert!(!gate.is_busy());
    assert!(!handle.dispose(&mut gate));
    let again = fresh_runtime(&mut gate);
    assert!(again.dispose(&mut gate));
}

#[test]
fn run_a_second_time_is_a_noop() {
    let mut gate = InitGate::new();
    let mut handle = fresh_runtime(&mut gate);
    let session = handle.run();
    assert!(session.is_some());
    assert!(handle.run().is_none());
    assert!(handle.run().is_none());
    session.unwrap().close(&mut gate);
}

#[test]
fn dispose_before_run_requests_exactly_one_native_shutdown() {
    let mut gate = InitGate::new();
    let handle = fresh_runtime(&mut gate);
    assert!(handle.dispose(&mut gate));
    assert!(!gate.is_busy());
}

#[test]
fn dispose_after_run_requests_no_further_shutdown() {
    let mut gate = InitGate::new();
    let mut handle = fresh_runtime(&mut gate);
    let session = handle.run().expect("first run enters the loop");
    session.close(&mut gate);
    assert!(!handle.dispose(&mut gate));
}

#[test]
fn wrapper_is_stale_after_the_runtime_is_disposed() {
    let mut gate = InitGate::new();
    let handle = fresh_runtime(&mut gate);
    let wrapper = handle.get_wrapper();
    assert_eq!(wrapper.valid(&gate), Ok(()));
    assert!(handle.dispose(&mut gate));
    assert_eq!(wrapper.valid(&gate), Err(SkError::StaleHandle));
}

#[test]
fn wrapper_is_stale_after_the_loop_closes() {
    let mut gate = InitGate::new();
    let mut handle = fresh_runtime(&mut gate);
    let wrapper = handle.get_wrapper();
    let session = handle.run().expect("first run enters the loop");
    assert_eq!(wrapper.valid(&gate), Ok(()));
    session.close(&mut gate);
    assert_eq!(wrapper.valid(&gate), Err(SkError::StaleHandle));
}

#[test]
fn wrapper_of_an_earlier_runtime_stays_stale_in_a_later_one() {
    let mut gate = InitGate::new();
    let first = fresh_runtime(&mut gate);
    let old_wrapper = first.get_wrapper();
    assert!(first.dispose(&mut gate));
    let second = fresh_runtime(&mut gate);
    assert_eq!(old_wrapper.valid(&gate), Err(SkError::StaleHandle));
    assert_eq!(second.get_wrapper().valid(&gate), Ok(()));
    assert!(second.dispose(&mut gate));
}

#[test]
fn frames_are_delivered_in_strictly_increasing_order() {
    let mut gate = InitGate::new();
    let mut handle = fresh_runtime(&mut gate);
    let mut session = handle.run().expect("first run enters the loop");
    assert_eq!(session.frame().index(), 0);
    assert_eq!(session.frame().index(), 1);
    assert_eq!(session.frame().index(), 2);
    assert_eq!(session.frame_count(), 3);
    session.close(&mut gate);
}

#[test]
fn asset_release_dispatches_to_the_owning_kind() {
    let mut gate = InitGate::new();
    let handle = fresh_runtime(&mut gate);

    let material = Material::create(&handle, 11).expect("non-null");
    let shader = Shader::from_native(&handle, 22).expect("non-null");
    let texture = Texture::from_native(&handle, 33).expect("non-null");
    let model = Model::from_native(&handle, 44).expect("non-null");

    assert_eq!(asset_releaseref(Asset::Material(material)), 11);
    assert_eq!(asset_releaseref(Asset::Shader(shader)), 22);
    assert_eq!(asset_releaseref(Asset::Texture(texture)), 33);
    assert_eq!(asset_releaseref(Asset::Model(model)), 44);

    assert!(handle.dispose(&mut gate));
}
