//! Where files are kept, and what they are called.
use crate::errors::{is_message, RsnipError};
use crate::text::{
    append_u64, decimal, decimal_u128, decimal_value, law_padding_fills_up, padded_decimal,
    padded_u64,
};
use crate::time::Elapsed;
use vstd::prelude::*;

verus! {

/// Whether a character separates the parts of a path.
pub open spec fn is_separator(c: char) -> bool {
    c == '/' || c == '\\'
}

/// Whether a name is a single relative component: it is not empty, does not start with a dot and
/// holds no separator and no colon.
pub open spec fn is_plain_name(name: Seq<char>) -> bool {
    &&& name.len() > 0
    &&& name[0] != '.'
    &&& forall|i: int|
        0 <= i < name.len() ==> #[trigger] name[i] != '/' && name[i] != '\\' && name[i] != ':'
}

/// Whether a path is in the form that Windows takes as it stands.
pub open spec fn is_verbatim(path: Seq<char>) -> bool {
    path.len() >= 4 && path[0] == '\\' && path[1] == '\\' && path[2] == '?' && path[3] == '\\'
}

/// Whether a component that is made of one dot or of two stands behind a separator.
pub open spec fn dots_behind(path: Seq<char>, i: int) -> bool {
    let n = path.len() as int;
    &&& is_separator(path[i])
    &&& i + 1 < n && path[i + 1] == '.'
    &&& {
        ||| i + 2 == n || is_separator(path[i + 2])
        ||| path[i + 2] == '.' && (i + 3 == n || is_separator(path[i + 3]))
    }
}

/// Whether a name is put behind a folder as it stands. Where a folder is in verbatim form, this needs
/// more than the mere prefix, a backslash behind a drive, and nothing that is tidied up: no component
/// made of dots, no backslash behind a backslash, and no slash at the end.
pub open spec fn is_regular(folder: Seq<char>) -> bool {
    is_verbatim(folder) ==> {
        &&& folder.len() > 4
        &&& folder != "\\\\?\\UNC\\"@
        &&& folder.last() != '/'
        &&& folder.len() > 5 && folder[5] == ':' ==> folder.len() > 6 && folder[6] == '\\'
        &&& forall|i: int| 3 <= i < folder.len() ==> !#[trigger] dots_behind(folder, i)
        &&& forall|i: int|
            3 <= i < folder.len() - 1 && #[trigger] folder[i] == '\\' ==> folder[i + 1] != '\\'
    }
}

/// Whether a path is a folder and a name in it. A separator is put between them, unless the folder
/// is empty or ends in one, or is a drive.
pub open spec fn is_joined(folder: Seq<char>, name: Seq<char>, path: Seq<char>) -> bool {
    ||| path == folder + name && (folder.len() == 0 || folder.last() == '/' || folder.last()
        == '\\' || folder.last() == ':')
    ||| path == folder.push('/') + name && folder.len() > 0 && folder.last() != '/'
    ||| path == folder.push('\\') + name && folder.len() > 0 && folder.last() != '/'
        && folder.last() != '\\'
}

/// Whether a name is the last component of a path in a folder: a separator stands in front of it,
/// unless the folder is empty or a drive.
pub open spec fn is_last(folder: Seq<char>, name: Seq<char>, path: Seq<char>) -> bool {
    &&& name.is_suffix_of(path)
    &&& folder.len() > 0 && folder.last() != ':' ==> name.len() < path.len() && is_separator(
        path[path.len() - name.len() - 1],
    )
}

/// Whether a path is the file with the given name in a folder: the name is its last component, and
/// it stands behind the folder, unless that is tidied up.
pub open spec fn is_file_in(folder: Seq<char>, name: Seq<char>, path: Seq<char>) -> bool {
    &&& is_last(folder, name, path)
    &&& is_regular(folder) ==> is_joined(folder, name, path)
}

/// A file never stands beside its folder: the name comes last, after a separator unless the folder is
/// empty or ends in a colon; and the folder comes first, unless it is tidied up.
pub proof fn law_files_lie_in_their_folder(folder: Seq<char>, name: Seq<char>, path: Seq<char>)
    requires
        is_file_in(folder, name, path),
    ensures
        name.is_suffix_of(path),
        folder.len() > 0 && folder.last() != ':' ==> name.len() < path.len() && is_separator(
            path[path.len() - name.len() - 1],
        ),
        is_regular(folder) ==> folder.is_prefix_of(path) && folder.len() + name.len() <= path.len()
            <= folder.len() + name.len() + 1,
        folder.len() == 0 ==> path == name,
{
    if is_regular(folder) {
        assert(path.take(folder.len() as int) =~= folder);
    }
    if folder.len() == 0 {
        assert(path =~= name);
    }
}

/// Joins a folder and a name with `std::path::Path::join`. The contract claims that a plain name
/// becomes the last component, and that it is put behind the folder as that stands, after a separator
/// of the platform unless the folder is empty or ends in one, or is a drive. Of a folder in verbatim
/// form the second is claimed only where nothing in it is tidied up. It claims nothing for names that
/// are absolute or have several components.
#[verifier::external_body]
fn join_path(folder: &str, name: &str) -> (r: String)
    ensures
        is_plain_name(name@) ==> is_file_in(folder@, name@, r@),
{
    std::path::Path::new(folder).join(name).display().to_string()
}

/// Whether a path is a file in the folder of the tool, which is in the given folder.
pub open spec fn is_tool_file(base: Seq<char>, name: Seq<char>, path: Seq<char>) -> bool {
    exists|folder: Seq<char>|
        is_file_in(base, "rsnip"@, folder) && #[trigger] is_file_in(folder, name, path)
}

/// A file in the folder of the tool stands behind that folder, and the folder behind the one that it
/// is in, unless that is tidied up.
pub proof fn law_tool_files_stand_behind_their_folders(
    base: Seq<char>,
    name: Seq<char>,
    path: Seq<char>,
)
    requires
        is_tool_file(base, name, path),
        is_regular(base),
    ensures
        exists|folder: Seq<char>|
            is_joined(base, "rsnip"@, folder) && #[trigger] is_joined(folder, name, path),
{
    let folder = choose|folder: Seq<char>|
        is_file_in(base, "rsnip"@, folder) && #[trigger] is_file_in(folder, name, path);
    lemma_tool_folder_is_regular(base, folder);
    assert(is_joined(folder, name, path));
}

/// The folder of the tool is tidied up only if the folder that it is in is.
proof fn lemma_tool_folder_is_regular(base: Seq<char>, folder: Seq<char>)
    requires
        is_joined(base, "rsnip"@, folder),
        is_regular(base),
    ensures
        is_regular(folder),
{
    reveal_strlit("rsnip");
    reveal_strlit("\\\\?\\UNC\\");
    let b = base.len() as int;
    let n = folder.len() as int;
    assert(forall|i: int| 0 <= i < b ==> folder[i] == base[i]);
    assert(folder[n - 5] == 'r' && folder[n - 4] == 's' && folder[n - 3] == 'n' && folder[n - 2]
        == 'i' && folder[n - 1] == 'p');
    if is_verbatim(folder) {
        assert(b >= 3);
        assert forall|i: int| 3 <= i < n implies !#[trigger] dots_behind(folder, i) by {
            if dots_behind(folder, i) {
                assert(i < b);
                if i + 1 < b {
                    assert(dots_behind(base, i));
                }
            }
        }
        assert forall|i: int| 3 <= i < n - 1 && #[trigger] folder[i] == '\\' implies folder[i + 1]
            != '\\' by {
            if i + 1 < b {
                assert(base[i] == '\\');
            }
        }
    }
}

/// The folder for settings, in the folder that the system has for them.
pub fn config_dir(base: Option<String>) -> (r: Result<String, RsnipError>)
    ensures
        match base {
            None => r matches Err(RsnipError::MissingUserDirectory(name)) && name@ == "config"@,
            Some(folder) => r matches Ok(path) && is_file_in(folder@, "rsnip"@, path@),
        },
{
    match base {
        None => Err(RsnipError::MissingUserDirectory("config")),
        Some(folder) => {
            proof {
                lemma_fixed_names();
            }
            Ok(join_path(folder.as_str(), "rsnip"))
        },
    }
}

/// The file of settings, in the folder for settings.
pub fn config_file(base: Option<String>) -> (r: Result<String, RsnipError>)
    ensures
        match base {
            None => r matches Err(RsnipError::MissingUserDirectory(name)) && name@ == "config"@,
            Some(folder) => r matches Ok(path) && is_tool_file(
                folder@,
                "rsnip.toml"@,
                path@,
            ),
        },
{
    let dir = config_dir(base)?;
    proof {
        lemma_fixed_names();
    }
    Ok(join_path(dir.as_str(), "rsnip.toml"))
}

/// The folder for data, in the folder that the system has for local data.
pub fn data_dir(base: Option<String>) -> (r: Result<String, RsnipError>)
    ensures
        match base {
            None => r matches Err(RsnipError::MissingUserDirectory(name)) && name@
                == "local data"@,
            Some(folder) => r matches Ok(path) && is_file_in(folder@, "rsnip"@, path@),
        },
{
    match base {
        None => Err(RsnipError::MissingUserDirectory("local data")),
        Some(folder) => {
            proof {
                lemma_fixed_names();
            }
            Ok(join_path(folder.as_str(), "rsnip"))
        },
    }
}

/// The log file, in the folder for data.
pub fn log_file(base: Option<String>) -> (r: Result<String, RsnipError>)
    ensures
        match base {
            None => r matches Err(RsnipError::MissingUserDirectory(name)) && name@
                == "local data"@,
            Some(folder) => r matches Ok(path) && is_tool_file(
                folder@,
                "rsnip.log"@,
                path@,
            ),
        },
{
    let dir = data_dir(base)?;
    proof {
        lemma_fixed_names();
    }
    Ok(join_path(dir.as_str(), "rsnip.log"))
}

/// The folder for temporary files, in the folder that the system has for them.
pub fn temp_dir(base: &str) -> (r: String)
    ensures
        is_file_in(base@, "rsnip"@, r@),
{
    proof {
        lemma_fixed_names();
    }
    join_path(base, "rsnip")
}

/// The folder in which videos are saved by default.
pub fn default_video_dir(base: Option<String>) -> (r: Result<String, RsnipError>)
    ensures
        match base {
            None => r matches Err(RsnipError::MissingUserDirectory(name)) && name@ == "videos"@,
            Some(folder) => r matches Ok(path) && path@ == folder@,
        },
{
    match base {
        None => Err(RsnipError::MissingUserDirectory("videos")),
        Some(folder) => Ok(folder),
    }
}

/// The fixed names are plain.
proof fn lemma_fixed_names()
    ensures
        is_plain_name("rsnip"@),
        is_plain_name("rsnip.toml"@),
        is_plain_name("rsnip.log"@),
{
    reveal_strlit("rsnip");
    reveal_strlit("rsnip.toml");
    reveal_strlit("rsnip.log");
}

// ---------------------------------------------------------------------------------------------
// Names made of numbers
// ---------------------------------------------------------------------------------------------

/// A local time, to the second.
#[derive(Debug, Clone, Copy, PartialEq, Eq, Structural)]
pub struct LocalTime {
    pub year: u16,
    pub month: u16,
    pub day: u16,
    pub hour: u16,
    pub minute: u16,
    pub second: u16,
}

/// A time as it stands in the name of a recording.
pub open spec fn timestamp(time: LocalTime) -> Seq<char> {
    padded_decimal(time.year as nat, 4) + padded_decimal(time.month as nat, 2) + padded_decimal(
        time.day as nat,
        2,
    ) + "_"@ + padded_decimal(time.hour as nat, 2) + padded_decimal(time.minute as nat, 2)
        + padded_decimal(time.second as nat, 2)
}

/// Writes a time for the name of a recording.
pub fn recording_timestamp(time: LocalTime) -> (r: String)
    ensures
        r@ == timestamp(time),
{
    let mut text = padded_u64(time.year as u64, 4);
    text.append(padded_u64(time.month as u64, 2).as_str());
    text.append(padded_u64(time.day as u64, 2).as_str());
    text.append("_");
    text.append(padded_u64(time.hour as u64, 2).as_str());
    text.append(padded_u64(time.minute as u64, 2).as_str());
    text.append(padded_u64(time.second as u64, 2).as_str());
    text
}

/// The name of a recording that was started at a time.
pub open spec fn recording_name(time: LocalTime) -> Seq<char> {
    "Recording_"@ + timestamp(time) + ".mp4"@
}

/// The name of a recording tells when it began: the year in four digits, then the month, the day,
/// and behind a low line the hour, the minute and the second in two digits each. So recordings that
/// begin at different seconds have different names.
pub proof fn law_recording_names_tell_the_time(time: LocalTime)
    requires
        time.year < 10000,
        time.month < 100,
        time.day < 100,
        time.hour < 100,
        time.minute < 100,
        time.second < 100,
    ensures
        ({
            let name = recording_name(time);
            &&& name.len() == 29
            &&& name.subrange(0, 10) == "Recording_"@
            &&& decimal_value(name.subrange(10, 14)) == time.year
            &&& decimal_value(name.subrange(14, 16)) == time.month
            &&& decimal_value(name.subrange(16, 18)) == time.day
            &&& name.subrange(18, 19) == "_"@
            &&& decimal_value(name.subrange(19, 21)) == time.hour
            &&& decimal_value(name.subrange(21, 23)) == time.minute
            &&& decimal_value(name.subrange(23, 25)) == time.second
            &&& name.subrange(25, 29) == ".mp4"@
        }),
{
    let name = recording_name(time);
    reveal_strlit("Recording_");
    reveal_strlit("_");
    reveal_strlit(".mp4");
    lemma_digits(time.year as nat, 4);
    lemma_digits(time.month as nat, 2);
    lemma_digits(time.day as nat, 2);
    lemma_digits(time.hour as nat, 2);
    lemma_digits(time.minute as nat, 2);
    lemma_digits(time.second as nat, 2);
    assert(name.subrange(0, 10) =~= "Recording_"@);
    assert(name.subrange(10, 14) =~= padded_decimal(time.year as nat, 4));
    assert(name.subrange(14, 16) =~= padded_decimal(time.month as nat, 2));
    assert(name.subrange(16, 18) =~= padded_decimal(time.day as nat, 2));
    assert(name.subrange(18, 19) =~= "_"@);
    assert(name.subrange(19, 21) =~= padded_decimal(time.hour as nat, 2));
    assert(name.subrange(21, 23) =~= padded_decimal(time.minute as nat, 2));
    assert(name.subrange(23, 25) =~= padded_decimal(time.second as nat, 2));
    assert(name.subrange(25, 29) =~= ".mp4"@);
}

proof fn lemma_digits(value: nat, width: nat)
    requires
        width == 2 && value < 100 || width == 4 && value < 10000,
    ensures
        padded_decimal(value, width).len() == width,
        decimal_value(padded_decimal(value, width)) == value,
{
    law_padding_fills_up(value, width);
    reveal_with_fuel(decimal, 4);
}

/// The file of a recording that is started at a time.
pub fn recording_output_file(save_folder: &str, time: LocalTime) -> (r: String)
    ensures
        is_file_in(save_folder@, recording_name(time), r@),
{
    let mut name = "Recording_".to_owned();
    name.append(recording_timestamp(time).as_str());
    name.append(".mp4");
    proof {
        lemma_recording_name_is_plain(time);
    }
    join_path(save_folder, name.as_str())
}

/// What a temporary image is for.
#[derive(Debug, Clone, Copy, PartialEq, Eq, Structural)]
pub enum TempImage {
    Editor,
    Ocr,
}

/// The name of a temporary image: its purpose, the number of the process and the time in
/// nanoseconds.
pub open spec fn temp_image_name(purpose: TempImage, process: u32, nanos: nat) -> Seq<char> {
    (match purpose {
        TempImage::Editor => "rsnip-editor-"@,
        TempImage::Ocr => "rsnip-ocr-"@,
    }) + decimal(process as nat) + "-"@ + decimal(nanos) + ".png"@
}

/// The file of a temporary image in the folder for temporary files. `since_epoch` is the time, or
/// why it is not known.
pub fn next_temp_path(
    temp_dir: &str,
    purpose: TempImage,
    process: u32,
    since_epoch: Result<Elapsed, String>,
) -> (r: Result<String, RsnipError>)
    ensures
        match (since_epoch, r) {
            (Ok(time), Ok(path)) => is_file_in(
                temp_dir@,
                temp_image_name(purpose, process, time.nanos()),
                path@,
            ),
            (Err(cause), Err(error)) => is_message(
                error,
                "system time before UNIX_EPOCH: "@ + cause@,
            ),
            _ => false,
        },
{
    let time = match since_epoch {
        Ok(time) => time,
        Err(cause) => {
            let mut message = "system time before UNIX_EPOCH: ".to_owned();
            message.append(cause.as_str());
            return Err(RsnipError::Message(message));
        },
    };
    let mut name = match purpose {
        TempImage::Editor => "rsnip-editor-".to_owned(),
        TempImage::Ocr => "rsnip-ocr-".to_owned(),
    };
    append_u64(&mut name, process as u64);
    name.append("-");
    name.append(decimal_u128(time.as_nanos()).as_str());
    name.append(".png");
    proof {
        lemma_temp_image_name_is_plain(purpose, process, time.nanos());
    }
    Ok(join_path(temp_dir, name.as_str()))
}

proof fn lemma_temp_image_name_is_plain(purpose: TempImage, process: u32, nanos: nat)
    ensures
        is_plain_name(temp_image_name(purpose, process, nanos)),
{
    reveal_strlit("rsnip-editor-");
    reveal_strlit("rsnip-ocr-");
    reveal_strlit("-");
    reveal_strlit(".png");
    lemma_decimal_is_safe(process as nat);
    lemma_decimal_is_safe(nanos);
    assert(is_safe(temp_image_name(purpose, process, nanos)));
}

/// Whether a text holds no separator and no colon.
pub open spec fn is_safe(text: Seq<char>) -> bool {
    forall|i: int|
        0 <= i < text.len() ==> #[trigger] text[i] != '/' && text[i] != '\\' && text[i] != ':'
}

/// A number holds no separator and no colon.
pub proof fn lemma_decimal_is_safe(value: nat)
    ensures
        is_safe(decimal(value)),
        decimal(value).len() > 0,
    decreases value,
{
    if value >= 10 {
        lemma_decimal_is_safe(value / 10);
    }
}

proof fn lemma_padded_is_safe(value: nat, width: nat)
    ensures
        is_safe(padded_decimal(value, width)),
{
    lemma_decimal_is_safe(value);
}

proof fn lemma_recording_name_is_plain(time: LocalTime)
    ensures
        is_plain_name(recording_name(time)),
{
    reveal_strlit("Recording_");
    reveal_strlit("_");
    reveal_strlit(".mp4");
    lemma_padded_is_safe(time.year as nat, 4);
    lemma_padded_is_safe(time.month as nat, 2);
    lemma_padded_is_safe(time.day as nat, 2);
    lemma_padded_is_safe(time.hour as nat, 2);
    lemma_padded_is_safe(time.minute as nat, 2);
    lemma_padded_is_safe(time.second as nat, 2);
    assert(is_safe(timestamp(time)));
    assert(is_safe(recording_name(time)));
}

} // verus!
