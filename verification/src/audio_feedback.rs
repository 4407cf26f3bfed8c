//! The sounds that tell of a recording.

use crate::settings;
use crate::settings::SoundTheme;
use crate::text;
use crate::text::{concat2, join_path};
use vstd::prelude::*;
use vstd::string::*;

verus! {

/// What a sound tells.
#[derive(Clone, Copy, Debug, PartialEq, Eq, Structural)]
pub enum SoundType {
    Start,
    Stop,
}

/// The file of a sound.
pub open spec fn sound_file(theme: SoundTheme, sound: SoundType) -> Seq<char> {
    settings::theme_name(theme) + match sound {
        SoundType::Start => "_start.wav"@,
        SoundType::Stop => "_stop.wav"@,
    }
}

/// The file of a sound.
pub fn sound_file_name(theme: SoundTheme, sound: SoundType) -> (r: String)
    ensures
        r@ == sound_file(theme, sound),
{
    match sound {
        SoundType::Start => concat2(theme.as_str(), "_start.wav"),
        SoundType::Stop => concat2(theme.as_str(), "_stop.wav"),
    }
}

/// Where a sound is: a custom one in the user's data directory, or else among the installed
/// sounds; any other among the installed sounds, or else beside the program.
pub open spec fn sound_path(
    theme: SoundTheme,
    sound: SoundType,
    data_home: Option<Seq<char>>,
    installed: bool,
) -> Seq<char> {
    let file = sound_file(theme, sound);
    if theme == SoundTheme::Custom {
        match data_home {
            Some(home) => text::joined_path(text::joined_path(home, "dikt/sounds"@), file),
            None => "/usr/share/dikt/sounds/"@ + file,
        }
    } else if installed {
        "/usr/share/dikt/sounds/"@ + file
    } else {
        "resources/"@ + file
    }
}

/// Where a sound is, given the user's data directory and whether the sound is installed.
pub fn get_sound_path(
    theme: SoundTheme,
    sound: SoundType,
    data_home: Option<String>,
    installed: bool,
) -> (r: String)
    ensures
        r@ == sound_path(theme, sound, text::opt_view(data_home), installed),
{
    let file = sound_file_name(theme, sound);
    if theme == SoundTheme::Custom {
        return match data_home {
            Some(home) => join_path(
                join_path(home.as_str(), "dikt/sounds").as_str(),
                file.as_str(),
            ),
            None => concat2("/usr/share/dikt/sounds/", file.as_str()),
        };
    }
    if installed {
        concat2("/usr/share/dikt/sounds/", file.as_str())
    } else {
        concat2("resources/", file.as_str())
    }
}

/// Starting and stopping sound different, and so do the themes. A theme of the user's own is looked
/// for among their files, the others among those that were installed, or else beside the program.
pub proof fn law_sounds_are_told_apart(theme: SoundTheme, home: Seq<char>, installed: bool)
    ensures
        sound_file(theme, SoundType::Start) != sound_file(theme, SoundType::Stop),
        sound_path(SoundTheme::Custom, SoundType::Start, Some(home), true) == sound_path(
            SoundTheme::Custom,
            SoundType::Start,
            Some(home),
            false,
        ),
        text::has_prefix(
            sound_path(SoundTheme::Custom, SoundType::Stop, Some(home), installed),
            home,
        ),
        theme != SoundTheme::Custom ==> sound_path(theme, SoundType::Start, Some(home), installed)
            == sound_path(theme, SoundType::Start, None, installed),
        theme != SoundTheme::Custom ==> text::has_prefix(
            sound_path(theme, SoundType::Start, None, true),
            "/usr/share/dikt/sounds/"@,
        ),
        theme != SoundTheme::Custom ==> text::has_prefix(
            sound_path(theme, SoundType::Start, None, false),
            "resources/"@,
        ),
{
    reveal_strlit("_start.wav");
    reveal_strlit("_stop.wav");
    assert(sound_file(theme, SoundType::Start).len() == sound_file(theme, SoundType::Stop).len()
        + 1);
    let file = sound_file(theme, SoundType::Start);
    let a = "/usr/share/dikt/sounds/"@;
    let b = "resources/"@;
    assert((a + file).subrange(0, a.len() as int) =~= a);
    assert((b + file).subrange(0, b.len() as int) =~= b);
    let dir = text::joined_path(home, "dikt/sounds"@);
    let stop = sound_file(SoundTheme::Custom, SoundType::Stop);
    reveal_strlit("dikt/sounds");
    assert("dikt/sounds"@[0] != '/');
    assert(text::has_prefix(dir, home)) by {
        assert(dir.subrange(0, home.len() as int) =~= home);
    }
    let theme_name = settings::theme_name(SoundTheme::Custom);
    reveal_strlit("custom");
    assert(stop[0] == 'c');
    let p = text::joined_path(dir, stop);
    assert(p.subrange(0, home.len() as int) =~= home);
}

} // verus!
