use rack::au::ffi::{RackAUGui, RackAUPlugin};
use rack::au::instance::GuiRequest;
use rack::{AudioUnitGui, AudioUnitPlugin, Error, PluginInfo, PluginInstance, PluginType};
use std::cell::RefCell;
use std::rc::Rc;

fn plugin(initialized: bool) -> AudioUnitPlugin {
    let info = PluginInfo::new(
        "AUGraphicEQ".to_string(),
        "Apple".to_string(),
        1,
        PluginType::Effect,
        "<system>".to_string(),
        "aufx-greq-appl".to_string(),
    );
    let mut plugin = AudioUnitPlugin::new(&info, RackAUPlugin { address: 0x4000 }).expect("a live handle");
    if initialized {
        plugin.initialize_reply(512, 0, 2, 2).expect("a successful initialization");
    }
    plugin
}

/// What a callback saw: one entry per invocation.
type Seen = Rc<RefCell<Vec<Result<RackAUGui, Error>>>>;

fn recorder(seen: &Seen) -> impl FnOnce(Result<AudioUnitGui, Error>) -> Result<(), Error> {
    let seen = Rc::clone(seen);
    move |outcome: Result<AudioUnitGui, Error>| {
        seen.borrow_mut().push(outcome.map(|gui| gui.handle()));
        Ok(())
    }
}

#[test]
fn test_audio_unit_gui_is_send() {
    // Compile-time check that AudioUnitGui is Send
    fn assert_send<T: Send>() {}
    assert_send::<AudioUnitGui>();
}

#[test]
fn test_audio_unit_gui_is_not_sync() {
    // Compile-time check of the bound that concurrent use must not rely on
    fn assert_not_sync<T: Send>() {}
    assert_not_sync::<AudioUnitGui>();
}

#[test]
fn creating_a_gui_before_initialization_answers_at_once() {
    let seen: Seen = Rc::new(RefCell::new(Vec::new()));
    let request = plugin(false).create_gui(recorder(&seen));
    match request {
        GuiRequest::Answered(answer) => assert_eq!(answer, Ok(())),
        GuiRequest::Pending(_) => panic!("the native layer must not be asked"),
    }
    assert_eq!(*seen.borrow(), vec![Err(Error::NotInitialized)]);
}

#[test]
fn the_answer_of_the_callback_is_handed_on() {
    let request = plugin(false).create_gui(|outcome: Result<AudioUnitGui, Error>| match outcome {
        Ok(_) => Ok(()),
        Err(error) => Err(Error::Other(format!("no GUI: {}", error.message()))),
    });
    match request {
        GuiRequest::Answered(answer) => {
            assert_eq!(answer, Err(Error::Other("no GUI: Plugin not initialized".to_string())))
        }
        GuiRequest::Pending(_) => panic!("the native layer must not be asked"),
    }
}

#[test]
fn creating_a_gui_hands_the_callback_to_the_native_answer() {
    let seen: Seen = Rc::new(RefCell::new(Vec::new()));
    let request = plugin(true).create_gui(recorder(&seen));
    let callback = match request {
        GuiRequest::Pending(callback) => callback,
        GuiRequest::Answered(_) => panic!("an initialized instance may ask the native layer"),
    };
    // Nothing has run yet: the native layer has not answered.
    assert!(seen.borrow().is_empty());

    let answer = AudioUnitGui::deliver(callback, RackAUGui { address: 0x7000 }, 0);
    assert_eq!(answer, Ok(()));
    assert_eq!(*seen.borrow(), vec![Ok(RackAUGui { address: 0x7000 })]);
}

#[test]
fn a_failed_creation_still_runs_the_callback_once() {
    let seen: Seen = Rc::new(RefCell::new(Vec::new()));
    let callback = match plugin(true).create_gui(recorder(&seen)) {
        GuiRequest::Pending(callback) => callback,
        GuiRequest::Answered(_) => panic!("an initialized instance may ask the native layer"),
    };
    let answer = AudioUnitGui::deliver(callback, RackAUGui { address: 0 }, -2);
    assert_eq!(answer, Ok(()));
    assert_eq!(*seen.borrow(), vec![Err(Error::PluginNotFound("AudioUnit not found".to_string()))]);

    let seen: Seen = Rc::new(RefCell::new(Vec::new()));
    AudioUnitGui::deliver(recorder(&seen), RackAUGui { address: 0 }, -10875).unwrap();
    assert_eq!(*seen.borrow(), vec![Err(Error::AudioUnit(-10875))]);
    // A live handle wins over whatever the code says.
    let seen: Seen = Rc::new(RefCell::new(Vec::new()));
    AudioUnitGui::deliver(recorder(&seen), RackAUGui { address: 0x7000 }, -1).unwrap();
    assert_eq!(*seen.borrow(), vec![Ok(RackAUGui { address: 0x7000 })]);
}

#[test]
fn a_null_gui_handle_is_the_mapped_failure() {
    assert_eq!(AudioUnitGui::from_raw(RackAUGui { address: 0 }, -4).err().unwrap(), Error::NotInitialized);
    assert_eq!(
        AudioUnitGui::from_raw(RackAUGui { address: 0 }, -1).err().unwrap(),
        Error::Other("Generic AudioUnit scanner error".to_string())
    );
    assert_eq!(AudioUnitGui::from_raw(RackAUGui { address: 0 }, 0).err().unwrap(), Error::AudioUnit(0));
    let gui = AudioUnitGui::from_raw(RackAUGui { address: 0x7000 }, 0).ok().unwrap();
    assert_eq!(gui.handle(), RackAUGui { address: 0x7000 });
    assert!(RackAUGui { address: 0 }.is_null());
    assert!(!gui.handle().is_null());
    assert!(RackAUPlugin { address: 0 }.is_null());
}

#[test]
fn gui_replies_keep_the_native_status() {
    let gui = AudioUnitGui::from_raw(RackAUGui { address: 0x7000 }, 0).ok().unwrap();
    assert_eq!(gui.get_native_view(0), None);
    assert_eq!(gui.get_native_view(0xABCD), Some(0xABCD));
    assert_eq!(gui.get_size(0, 640.0f32, 480.0f32), Ok((640.0, 480.0)));
    assert_eq!(gui.get_size(-1, 640.0f32, 480.0f32), Err(Error::AudioUnit(-1)));
    assert_eq!(gui.get_size(7, 1u8, 2u8), Err(Error::AudioUnit(7)));
    assert_eq!(gui.show_window_reply(0), Ok(()));
    assert_eq!(gui.show_window_reply(-4), Err(Error::AudioUnit(-4)));
    assert_eq!(gui.hide_window(0), Ok(()));
    assert_eq!(gui.hide_window(-50), Err(Error::AudioUnit(-50)));
}

#[test]
fn a_window_title_is_marshalled_as_a_c_string() {
    let gui = AudioUnitGui::from_raw(RackAUGui { address: 0x7000 }, 0).ok().unwrap();
    assert_eq!(gui.show_window(None), None);
    assert_eq!(gui.show_window(Some("My Plugin")), Some(b"My Plugin\0".to_vec()));
    assert_eq!(gui.show_window(Some("")), Some(vec![0u8]));
    assert_eq!(gui.show_window(Some("\u{266b}")), Some(vec![0xE2, 0x99, 0xAB, 0]));
}
