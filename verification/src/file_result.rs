//! One entry of a result list, with metadata that is filled in lazily.

use vstd::prelude::*;
use crate::text::{append, decimal_digits, decimal_text, uppercase, uppercase_of};

verus! {

/// Seconds in a day.
pub const SECONDS_PER_DAY: u64 = 86_400;

/// Days from the first day of year one to the first day of 1970.
pub const EPOCH_DAYS: u64 = 719_162;

/// One search result. A `size` of zero and a `modified_time` of zero (the
/// epoch) both mean that the value has not been loaded yet.
#[derive(Debug, Clone)]
pub struct FileResult {
    pub name: String,
    pub path: String,
    pub size: u64,
    /// Seconds since the epoch.
    pub modified_time: u64,
    pub file_type: String,
    pub extension: String,
}

/// The magnitude in which a size is shown.
#[derive(Debug, Clone, Copy, PartialEq, Eq, Structural)]
pub enum SizeUnit {
    /// The size is not loaded; nothing is shown.
    Unknown,
    Bytes,
    Kilobytes,
    Megabytes,
    Gigabytes,
}

/// Calls `Path::file_name` and `OsStr::to_str` on the path. Which part of a
/// path is its file name depends on the platform, so nothing is claimed of
/// the result.
#[verifier::external_body]
pub(crate) fn path_file_name(path: &str) -> (name: Option<String>) {
    std::path::Path::new(path).file_name().and_then(|n| n.to_str()).map(|n| n.to_string())
}

/// Calls `Path::extension` and `OsStr::to_str` on the path. Nothing is
/// claimed of the result, as for the file name.
#[verifier::external_body]
pub(crate) fn path_extension(path: &str) -> (extension: Option<String>) {
    std::path::Path::new(path).extension().and_then(|e| e.to_str()).map(|e| e.to_string())
}

/// The label of a file type, given the extension and its uppercase form:
/// `File` without an extension, else the uppercase form followed by ` File`.
pub open spec fn type_label_with(extension: Seq<char>, upper: Seq<char>) -> Seq<char> {
    if extension.len() == 0 {
        "File"@
    } else {
        upper + " File"@
    }
}

/// The label of a file type: `File` without an extension, else the
/// extension in uppercase followed by ` File`.
pub open spec fn type_label(extension: Seq<char>) -> Seq<char> {
    type_label_with(extension, uppercase_of(extension))
}

/// Builds the label of a file type from the extension and its uppercase
/// form.
pub fn make_type_label(extension: &str, upper: &str) -> (label: String)
    ensures
        label@ == type_label_with(extension@, upper@),
{
    if extension.is_empty() {
        "File".to_owned()
    } else {
        append(upper, " File")
    }
}

/// The age label of a file modified `modified` seconds after the epoch, seen
/// at `now`: empty while the time is not loaded, then by whole days of age
/// `Today`, `Yesterday`, days, weeks of seven days, months of thirty days,
/// and from 365 days on an approximate date `month/day/year`.
pub open spec fn age_label(modified: nat, now: nat) -> Seq<char> {
    let diff_days = (if now >= modified { now - modified } else { 0 }) / 86_400;
    if modified == 0 {
        Seq::<char>::empty()
    } else if diff_days == 0 {
        "Today"@
    } else if diff_days == 1 {
        "Yesterday"@
    } else if diff_days < 7 {
        decimal_digits(diff_days as nat) + " days ago"@
    } else if diff_days < 30 {
        decimal_digits((diff_days / 7) as nat) + " weeks ago"@
    } else if diff_days < 365 {
        decimal_digits((diff_days / 30) as nat) + " months ago"@
    } else {
        let total_days = 719_162 + modified / 86_400;
        let year = 1 + total_days / 365;
        let month = 1 + (total_days % 365) / 30;
        let day = 1 + (total_days % 365) % 30;
        decimal_digits(month as nat) + "/"@ + decimal_digits(day as nat) + "/"@ + decimal_digits(
            year as nat,
        )
    }
}

/// The magnitude a size is shown in: a unit is used only above 1024 of the
/// next smaller one.
pub open spec fn unit_of(size: u64) -> SizeUnit {
    if size == 0 {
        SizeUnit::Unknown
    } else if size > 1024 * 1024 * 1024 {
        SizeUnit::Gigabytes
    } else if size > 1024 * 1024 {
        SizeUnit::Megabytes
    } else if size > 1024 {
        SizeUnit::Kilobytes
    } else {
        SizeUnit::Bytes
    }
}

impl FileResult {
    /// Whether neither size nor modification time has been loaded.
    pub open spec fn metadata_missing(&self) -> bool {
        self.size == 0 && self.modified_time == 0
    }

    /// Builds an entry from a path and the file name and extension found in
    /// it. A missing file name becomes `Unknown`, a missing extension is
    /// empty; the metadata is left unloaded.
    pub fn from_parts(path: &str, file_name: Option<String>, extension: Option<String>) -> (entry:
        Self)
        ensures
            entry.path@ == path@,
            entry.name@ == (match file_name {
                Some(n) => n@,
                None => "Unknown"@,
            }),
            entry.extension@ == (match extension {
                Some(e) => e@,
                None => Seq::<char>::empty(),
            }),
            entry.file_type@ == type_label(entry.extension@),
            entry.size == 0,
            entry.modified_time == 0,
    {
        let name = match file_name {
            Some(n) => n,
            None => "Unknown".to_owned(),
        };
        let extension = match extension {
            Some(e) => e,
            None => String::new(),
        };
        let upper = uppercase(extension.as_str());
        let file_type = make_type_label(extension.as_str(), upper.as_str());
        FileResult {
            name,
            path: path.to_owned(),
            size: 0,
            modified_time: 0,
            file_type,
            extension,
        }
    }

    /// Builds an entry from a path alone. File name and extension are those
    /// the platform finds in the path.
    pub fn from_path(path: &str) -> (entry: Self)
        ensures
            entry.path@ == path@,
            entry.file_type@ == type_label(entry.extension@),
            entry.size == 0,
            entry.modified_time == 0,
    {
        let file_name = path_file_name(path);
        let extension = path_extension(path);
        Self::from_parts(path, file_name, extension)
    }

    /// Stores freshly read metadata, unless some is already there.
    pub fn apply_metadata(&mut self, size: u64, modified_time: u64)
        ensures
            final(self).name == old(self).name,
            final(self).path == old(self).path,
            final(self).file_type == old(self).file_type,
            final(self).extension == old(self).extension,
            old(self).metadata_missing() ==> final(self).size == size,
            old(self).metadata_missing() ==> final(self).modified_time == modified_time,
            !old(self).metadata_missing() ==> final(self).size == old(self).size,
            !old(self).metadata_missing() ==> final(self).modified_time == old(self).modified_time,
    {
        if self.size == 0 && self.modified_time == 0 {
            self.size = size;
            self.modified_time = modified_time;
        }
    }

    /// Whether metadata still has to be read for this entry.
    pub fn needs_metadata(&self) -> (missing: bool)
        ensures
            missing == self.metadata_missing(),
    {
        self.size == 0 && self.modified_time == 0
    }

    /// The magnitude in which the size of this entry is shown.
    pub fn size_unit(&self) -> (unit: SizeUnit)
        ensures
            unit == unit_of(self.size),
    {
        if self.size == 0 {
            SizeUnit::Unknown
        } else if self.size > 1024 * 1024 * 1024 {
            SizeUnit::Gigabytes
        } else if self.size > 1024 * 1024 {
            SizeUnit::Megabytes
        } else if self.size > 1024 {
            SizeUnit::Kilobytes
        } else {
            SizeUnit::Bytes
        }
    }

    /// The age of this entry in words, as seen `now` seconds after the epoch.
    pub fn format_modified_time(&self, now: u64) -> (label: String)
        ensures
            label@ == age_label(self.modified_time as nat, now as nat),
    {
        if self.modified_time == 0 {
            return String::new();
        }
        let secs: u64 = self.modified_time;
        let diff_secs: u64 = now.saturating_sub(secs);
        let diff_days: u64 = diff_secs / SECONDS_PER_DAY;
        if diff_days == 0 {
            "Today".to_owned()
        } else if diff_days == 1 {
            "Yesterday".to_owned()
        } else if diff_days < 7 {
            append(decimal_text(diff_days).as_str(), " days ago")
        } else if diff_days < 30 {
            append(decimal_text(diff_days / 7).as_str(), " weeks ago")
        } else if diff_days < 365 {
            append(decimal_text(diff_days / 30).as_str(), " months ago")
        } else {
            let total_days: u64 = EPOCH_DAYS + secs / SECONDS_PER_DAY;
            let year: u64 = 1 + total_days / 365;
            let remaining: u64 = total_days % 365;
            let month: u64 = 1 + remaining / 30;
            let day: u64 = 1 + remaining % 30;
            let m = append(decimal_text(month).as_str(), "/");
            let md = append(m.as_str(), decimal_text(day).as_str());
            let mds = append(md.as_str(), "/");
            append(mds.as_str(), decimal_text(year).as_str())
        }
    }
}

} // verus!
