//! What is known of a file system entry, the indicator that follows from it,
//! and the style of a path.

use vstd::prelude::*;
use vstd::slice::slice_subrange;
use crate::indicator::Indicator;
use crate::path::{file_name, file_name_span, SEPARATOR};
use crate::registry::{LsColors, LsColorsView};
use crate::style::Style;
use crate::text::chars_of;

verus! {

/// The mode bit of a file that runs as its owner (`u+s`).
pub const SETUID: u32 = 0o4000;

/// The mode bit of a file that runs as its group (`g+s`).
pub const SETGID: u32 = 0o2000;

/// The mode bit of a sticky directory (`+t`).
pub const STICKY: u32 = 0o1000;

/// The mode bit of an entry that others may write (`o+w`).
pub const OTHER_WRITABLE: u32 = 0o0002;

/// The mode bits of an entry that its owner, its group or others may execute.
pub const EXECUTABLE: u32 = 0o0111;

/// The type of a file system entry, as the file system reports it for the
/// entry itself: a symbolic link is a link, whatever it leads to.
#[derive(Debug, Clone, Copy, PartialEq, Eq, Structural)]
pub enum FileType {
    RegularFile,
    Directory,
    SymbolicLink,
    Fifo,
    Socket,
    BlockDevice,
    CharacterDevice,
    /// Any other type, and every type that the platform does not tell apart.
    Unknown,
}

/// What the file system knows of an entry.
#[derive(Debug, Clone, Copy, PartialEq, Eq, Structural)]
pub struct Metadata {
    /// The type of the entry itself.
    pub file_type: FileType,
    /// The permission bits; zero where the platform has none.
    pub mode: u32,
    /// The number of hard links to the entry.
    pub nlink: u64,
    /// Whether the path leads to an entry when symbolic links are followed.
    pub target_exists: bool,
}

impl Metadata {
    /// The entry runs as its owner.
    pub open spec fn is_setuid(self) -> bool {
        self.mode & SETUID != 0
    }

    /// The entry runs as its group.
    pub open spec fn is_setgid(self) -> bool {
        self.mode & SETGID != 0
    }

    /// Somebody may execute the entry.
    pub open spec fn is_executable(self) -> bool {
        self.mode & EXECUTABLE != 0
    }

    /// The entry is sticky.
    pub open spec fn is_sticky(self) -> bool {
        self.mode & STICKY != 0
    }

    /// Others may write the entry.
    pub open spec fn is_other_writable(self) -> bool {
        self.mode & OTHER_WRITABLE != 0
    }

    /// More than one hard link leads to the entry.
    pub open spec fn has_multiple_links(self) -> bool {
        self.nlink > 1
    }
}

impl LsColorsView {
    /// The indicator of an entry with the given metadata.
    ///
    /// Without metadata the entry counts as a regular file. A special kind of
    /// regular file or of directory is told apart only if a style is
    /// configured for it, and so is the broken symbolic link. Among the kinds
    /// of regular file setuid comes before setgid, then executable, then
    /// multiple hard links; among the kinds of directory sticky and
    /// other-writable comes before other-writable, then sticky. An entry of
    /// unknown type counts as a missing file.
    pub open spec fn indicator_for(self, metadata: Option<&Metadata>) -> Indicator {
        match metadata {
            None => Indicator::RegularFile,
            Some(metadata) => match metadata.file_type {
                FileType::RegularFile => {
                    if self.has_color_for(Indicator::Setuid) && metadata.is_setuid() {
                        Indicator::Setuid
                    } else if self.has_color_for(Indicator::Setgid) && metadata.is_setgid() {
                        Indicator::Setgid
                    } else if self.has_color_for(Indicator::ExecutableFile)
                        && metadata.is_executable() {
                        Indicator::ExecutableFile
                    } else if self.has_color_for(Indicator::MultipleHardLinks)
                        && metadata.has_multiple_links() {
                        Indicator::MultipleHardLinks
                    } else {
                        Indicator::RegularFile
                    }
                },
                FileType::Directory => {
                    if self.has_color_for(Indicator::StickyAndOtherWritable)
                        && metadata.is_sticky() && metadata.is_other_writable() {
                        Indicator::StickyAndOtherWritable
                    } else if self.has_color_for(Indicator::OtherWritable)
                        && metadata.is_other_writable() {
                        Indicator::OtherWritable
                    } else if self.has_color_for(Indicator::Sticky) && metadata.is_sticky() {
                        Indicator::Sticky
                    } else {
                        Indicator::Directory
                    }
                },
                FileType::SymbolicLink => {
                    if self.has_color_for(Indicator::OrphanedSymbolicLink)
                        && !metadata.target_exists {
                        Indicator::OrphanedSymbolicLink
                    } else {
                        Indicator::SymbolicLink
                    }
                },
                FileType::Fifo => Indicator::FIFO,
                FileType::Socket => Indicator::Socket,
                FileType::BlockDevice => Indicator::BlockDevice,
                FileType::CharacterDevice => Indicator::CharacterDevice,
                FileType::Unknown => Indicator::MissingFile,
            },
        }
    }

    /// The style of the Unix path `path` for an entry with the given
    /// metadata: the style of the path with `/` between its components.
    pub open spec fn style_for_path(
        self,
        path: Seq<char>,
        metadata: Option<&Metadata>,
    ) -> Option<Style> {
        self.style_for_separated_path(path, SEPARATOR, metadata)
    }

    /// The style of `path`, with `separator` between its components, for an
    /// entry with the given metadata.
    ///
    /// For a regular file whose path ends in a name the suffix rules are asked
    /// first. Where they give no style, and for every other entry, the style
    /// is that of the entry's indicator.
    pub open spec fn style_for_separated_path(
        self,
        path: Seq<char>,
        separator: char,
        metadata: Option<&Metadata>,
    ) -> Option<Style> {
        let indicator = self.indicator_for(metadata);
        let by_name = if indicator == Indicator::RegularFile {
            match file_name(path, separator) {
                Some(name) => self.style_for_name(name),
                None => None,
            }
        } else {
            None
        };
        if by_name is Some {
            by_name
        } else {
            self.style_for_indicator(indicator)
        }
    }
}

impl LsColors {
    /// Get the indicator type for an entry with the given metadata.
    pub fn indicator_for(&self, metadata: Option<&Metadata>) -> (indicator: Indicator)
        ensures
            indicator == self@.indicator_for(metadata),
    {
        if let Some(metadata) = metadata {
            match metadata.file_type {
                FileType::RegularFile => {
                    let mode = metadata.mode;
                    let nlink = metadata.nlink;
                    if self.has_color_for(Indicator::Setuid) && mode & SETUID != 0 {
                        Indicator::Setuid
                    } else if self.has_color_for(Indicator::Setgid) && mode & SETGID != 0 {
                        Indicator::Setgid
                    } else if self.has_color_for(Indicator::ExecutableFile) && mode & EXECUTABLE
                        != 0 {
                        Indicator::ExecutableFile
                    } else if self.has_color_for(Indicator::MultipleHardLinks) && nlink > 1 {
                        Indicator::MultipleHardLinks
                    } else {
                        Indicator::RegularFile
                    }
                },
                FileType::Directory => {
                    let mode = metadata.mode;
                    if self.has_color_for(Indicator::StickyAndOtherWritable) && mode & STICKY != 0
                        && mode & OTHER_WRITABLE != 0 {
                        Indicator::StickyAndOtherWritable
                    } else if self.has_color_for(Indicator::OtherWritable) && mode
                        & OTHER_WRITABLE != 0 {
                        Indicator::OtherWritable
                    } else if self.has_color_for(Indicator::Sticky) && mode & STICKY != 0 {
                        Indicator::Sticky
                    } else {
                        Indicator::Directory
                    }
                },
                FileType::SymbolicLink => {
                    if self.has_color_for(Indicator::OrphanedSymbolicLink)
                        && !metadata.target_exists {
                        Indicator::OrphanedSymbolicLink
                    } else {
                        Indicator::SymbolicLink
                    }
                },
                FileType::Fifo => Indicator::FIFO,
                FileType::Socket => Indicator::Socket,
                FileType::BlockDevice => Indicator::BlockDevice,
                FileType::CharacterDevice => Indicator::CharacterDevice,
                // Treat files of unknown type as errors
                FileType::Unknown => Indicator::MissingFile,
            }
        } else {
            // Default to a regular file, so we still try the suffix map when no
            // metadata is available
            Indicator::RegularFile
        }
    }

    /// Get the ANSI style for a path, given the corresponding metadata. The
    /// path is taken as a Unix path, with `/` between its components.
    ///
    /// *Note:* The metadata must be that of the entry itself, not of what a
    /// symbolic link leads to, in order to colorize symbolic links correctly.
    pub fn style_for_path_with_metadata(&self, path: &str, metadata: Option<&Metadata>) -> (style:
        Option<&Style>)
        ensures
            Style::copied(style) == self@.style_for_path(path@, metadata),
    {
        self.style_for_separated_path(path, SEPARATOR, metadata)
    }

    /// Get the ANSI style for a path with `separator` between its components,
    /// given the corresponding metadata.
    pub fn style_for_separated_path(
        &self,
        path: &str,
        separator: char,
        metadata: Option<&Metadata>,
    ) -> (style: Option<&Style>)
        ensures
            Style::copied(style) == self@.style_for_separated_path(path@, separator, metadata),
    {
        let indicator = self.indicator_for(metadata);
        if indicator == Indicator::RegularFile {
            let chars = chars_of(path);
            if let Some(span) = file_name_span(chars.as_slice(), separator) {
                let name = slice_subrange(chars.as_slice(), span.start, span.end);
                if let Some(style) = self.style_for_name(name) {
                    return Some(style);
                }
            }
        }
        self.style_for_indicator(indicator)
    }

    /// Get the ANSI style for a path of which nothing but the text is known.
    /// The entry counts as a regular file, so that the suffix rules decide
    /// first.
    pub fn style_for_path(&self, path: &str) -> (style: Option<&Style>)
        ensures
            Style::copied(style) == self@.style_for_path(path@, None),
    {
        self.style_for_path_with_metadata(path, None)
    }
}

} // verus!
