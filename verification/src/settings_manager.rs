//! The user settings: the keyboard shortcut that takes a screenshot and
//! the folder where screenshots are saved.

use vstd::prelude::*;

verus! {

/// The settings as mathematical values.
pub struct SettingsView {
    pub screen_shortcut: Seq<char>,
    pub save_dir: Seq<char>,
}

impl SettingsView {
    pub open spec fn with_screen_shortcut(self, shortcut: Seq<char>) -> SettingsView {
        SettingsView { screen_shortcut: shortcut, save_dir: self.save_dir }
    }

    pub open spec fn with_save_dir(self, dir: Seq<char>) -> SettingsView {
        SettingsView { screen_shortcut: self.screen_shortcut, save_dir: dir }
    }
}

/// The shortcut that a fresh set of settings starts with.
pub open spec fn default_shortcut() -> Seq<char> {
    "<Ctrl>a"@
}

/// The user settings.
#[derive(Debug, Clone)]
pub struct Settings {
    screen_shortcut: String,
    save_dir: String,
}

impl View for Settings {
    type V = SettingsView;

    closed spec fn view(&self) -> SettingsView {
        SettingsView { screen_shortcut: self.screen_shortcut@, save_dir: self.save_dir@ }
    }
}

impl Settings {
    /// The default settings: shortcut `<Ctrl>a`, saving into the user's
    /// download folder, given as text; `None` stands for a folder name that
    /// is not readable text, and gives the empty path.
    pub fn new(download_dir: Option<String>) -> (r: Settings)
        ensures
            r@.screen_shortcut == default_shortcut(),
            r@.save_dir == (match download_dir {
                Some(d) => d@,
                None => Seq::<char>::empty(),
            }),
    {
        let shortcut = "<Ctrl>a".to_owned();
        let save_dir = match download_dir {
            Some(d) => d,
            None => String::new(),
        };
        Settings { screen_shortcut: shortcut, save_dir }
    }

    pub fn get_screen_shortcut(&self) -> (r: String)
        ensures
            r@ == self@.screen_shortcut,
    {
        self.screen_shortcut.clone()
    }

    pub fn get_save_dir(&self) -> (r: String)
        ensures
            r@ == self@.save_dir,
    {
        self.save_dir.clone()
    }

    pub fn set_screen_shortcut(&mut self, shortcut: String)
        ensures
            final(self)@ == old(self)@.with_screen_shortcut(shortcut@),
    {
        self.screen_shortcut = shortcut;
    }

    pub fn set_save_dir(&mut self, directory: String)
        ensures
            final(self)@ == old(self)@.with_save_dir(directory@),
    {
        self.save_dir = directory;
    }
}

/// A shortcut read back after it was written is the one written, and the
/// save folder is left as it was.
pub proof fn law_shortcut_read_after_write(settings: SettingsView, shortcut: Seq<char>)
    ensures
        settings.with_screen_shortcut(shortcut).screen_shortcut == shortcut,
        settings.with_screen_shortcut(shortcut).save_dir == settings.save_dir,
{
}

/// A save folder read back after it was written is the one written, and
/// the shortcut is left as it was.
pub proof fn law_save_dir_read_after_write(settings: SettingsView, dir: Seq<char>)
    ensures
        settings.with_save_dir(dir).save_dir == dir,
        settings.with_save_dir(dir).screen_shortcut == settings.screen_shortcut,
{
}

/// One call on the settings: a write of either field, or a call that only
/// reads them (a getter, a clone, writing them to a file).
pub enum SettingsCall {
    SetScreenShortcut(Seq<char>),
    SetSaveDir(Seq<char>),
    Read,
}

/// The settings after one call.
pub open spec fn after_call(settings: SettingsView, call: SettingsCall) -> SettingsView {
    match call {
        SettingsCall::SetScreenShortcut(s) => settings.with_screen_shortcut(s),
        SettingsCall::SetSaveDir(d) => settings.with_save_dir(d),
        SettingsCall::Read => settings,
    }
}

/// The settings after a sequence of calls, first to last.
pub open spec fn after_calls(settings: SettingsView, calls: Seq<SettingsCall>) -> SettingsView
    decreases calls.len(),
{
    if calls.len() == 0 {
        settings
    } else {
        after_calls(after_call(settings, calls[0]), calls.drop_first())
    }
}

/// A shortcut written once is read back after any later calls that do not
/// write the shortcut again.
pub proof fn law_shortcut_kept_by_later_calls(settings: SettingsView, shortcut: Seq<char>, calls: Seq<SettingsCall>)
    requires
        forall|i: int| 0 <= i < calls.len() ==> !(#[trigger] calls[i] is SetScreenShortcut),
    ensures
        after_calls(settings.with_screen_shortcut(shortcut), calls).screen_shortcut == shortcut,
    decreases calls.len(),
{
    if calls.len() > 0 {
        let next = after_call(settings.with_screen_shortcut(shortcut), calls[0]);
        assert(next == next.with_screen_shortcut(shortcut));
        assert forall|i: int| 0 <= i < calls.drop_first().len() implies !(#[trigger] calls.drop_first()[i] is SetScreenShortcut) by {
            assert(calls.drop_first()[i] == calls[i + 1]);
        }
        law_shortcut_kept_by_later_calls(next, shortcut, calls.drop_first());
    }
}

/// A save folder written once is read back after any later calls that do
/// not write the save folder again.
pub proof fn law_save_dir_kept_by_later_calls(settings: SettingsView, dir: Seq<char>, calls: Seq<SettingsCall>)
    requires
        forall|i: int| 0 <= i < calls.len() ==> !(#[trigger] calls[i] is SetSaveDir),
    ensures
        after_calls(settings.with_save_dir(dir), calls).save_dir == dir,
    decreases calls.len(),
{
    if calls.len() > 0 {
        let next = after_call(settings.with_save_dir(dir), calls[0]);
        assert(next == next.with_save_dir(dir));
        assert forall|i: int| 0 <= i < calls.drop_first().len() implies !(#[trigger] calls.drop_first()[i] is SetSaveDir) by {
            assert(calls.drop_first()[i] == calls[i + 1]);
        }
        law_save_dir_kept_by_later_calls(next, dir, calls.drop_first());
    }
}

} // verus!
