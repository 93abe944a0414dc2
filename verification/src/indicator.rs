//! The categories of file system entries that a style can be configured for.

use vstd::prelude::*;
use crate::text::chars_of;

verus! {

/// What kind of entry, or which piece of the output, a style is for. Each
/// indicator has a key of two letters by which a configuration names it.
#[derive(Debug, Clone, Copy, PartialEq, Eq, Hash, Structural)]
pub enum Indicator {
    /// `no`: Normal (non-filename) text
    Normal,
    /// `fi`: Regular file
    RegularFile,
    /// `di`: Directory
    Directory,
    /// `ln`: Symbolic link
    SymbolicLink,
    /// `pi`: Named pipe or FIFO
    FIFO,
    /// `so`: Socket
    Socket,
    /// `do`: Door (IPC connection to another program)
    Door,
    /// `bd`: Block-oriented device
    BlockDevice,
    /// `cd`: Character-oriented device
    CharacterDevice,
    /// `or`: A broken symbolic link
    OrphanedSymbolicLink,
    /// `su`: A file that is setuid (`u+s`)
    Setuid,
    /// `sg`: A file that is setgid (`g+s`)
    Setgid,
    /// `st`: A directory that is sticky and not other-writable (`+t`, `o-w`)
    Sticky,
    /// `ow`: A directory that is other-writable and not sticky (`o+w`)
    OtherWritable,
    /// `tw`: A directory that is sticky and other-writable (`+t`, `o+w`)
    StickyAndOtherWritable,
    /// `ex`: Executable file
    ExecutableFile,
    /// `mi`: Missing file
    MissingFile,
    /// `ca`: File with capabilities set
    Capabilities,
    /// `mh`: File with multiple hard links
    MultipleHardLinks,
    /// `lc`: Code that is printed before the color sequence
    LeftCode,
    /// `rc`: Code that is printed after the color sequence
    RightCode,
    /// `ec`: End code
    EndCode,
    /// `rs`: Code to reset to ordinary colors
    Reset,
    /// `cl`: Code to clear to the end of the line
    ClearLine,
}

impl Indicator {
    /// The key of two letters that names the indicator in a configuration.
    pub open spec fn key(self) -> Seq<char> {
        match self {
            Indicator::Normal => seq!['n', 'o'],
            Indicator::RegularFile => seq!['f', 'i'],
            Indicator::Directory => seq!['d', 'i'],
            Indicator::SymbolicLink => seq!['l', 'n'],
            Indicator::FIFO => seq!['p', 'i'],
            Indicator::Socket => seq!['s', 'o'],
            Indicator::Door => seq!['d', 'o'],
            Indicator::BlockDevice => seq!['b', 'd'],
            Indicator::CharacterDevice => seq!['c', 'd'],
            Indicator::OrphanedSymbolicLink => seq!['o', 'r'],
            Indicator::Setuid => seq!['s', 'u'],
            Indicator::Setgid => seq!['s', 'g'],
            Indicator::Sticky => seq!['s', 't'],
            Indicator::OtherWritable => seq!['o', 'w'],
            Indicator::StickyAndOtherWritable => seq!['t', 'w'],
            Indicator::ExecutableFile => seq!['e', 'x'],
            Indicator::MissingFile => seq!['m', 'i'],
            Indicator::Capabilities => seq!['c', 'a'],
            Indicator::MultipleHardLinks => seq!['m', 'h'],
            Indicator::LeftCode => seq!['l', 'c'],
            Indicator::RightCode => seq!['r', 'c'],
            Indicator::EndCode => seq!['e', 'c'],
            Indicator::Reset => seq!['r', 's'],
            Indicator::ClearLine => seq!['c', 'l'],
        }
    }

    /// The indicator that the letters `a` and `b` name.
    pub open spec fn of_letters(a: char, b: char) -> Option<Indicator> {
        if a == 'n' && b == 'o' {
            Some(Indicator::Normal)
        } else if a == 'f' && b == 'i' {
            Some(Indicator::RegularFile)
        } else if a == 'd' && b == 'i' {
            Some(Indicator::Directory)
        } else if a == 'l' && b == 'n' {
            Some(Indicator::SymbolicLink)
        } else if a == 'p' && b == 'i' {
            Some(Indicator::FIFO)
        } else if a == 's' && b == 'o' {
            Some(Indicator::Socket)
        } else if a == 'd' && b == 'o' {
            Some(Indicator::Door)
        } else if a == 'b' && b == 'd' {
            Some(Indicator::BlockDevice)
        } else if a == 'c' && b == 'd' {
            Some(Indicator::CharacterDevice)
        } else if a == 'o' && b == 'r' {
            Some(Indicator::OrphanedSymbolicLink)
        } else if a == 's' && b == 'u' {
            Some(Indicator::Setuid)
        } else if a == 's' && b == 'g' {
            Some(Indicator::Setgid)
        } else if a == 's' && b == 't' {
            Some(Indicator::Sticky)
        } else if a == 'o' && b == 'w' {
            Some(Indicator::OtherWritable)
        } else if a == 't' && b == 'w' {
            Some(Indicator::StickyAndOtherWritable)
        } else if a == 'e' && b == 'x' {
            Some(Indicator::ExecutableFile)
        } else if a == 'm' && b == 'i' {
            Some(Indicator::MissingFile)
        } else if a == 'c' && b == 'a' {
            Some(Indicator::Capabilities)
        } else if a == 'm' && b == 'h' {
            Some(Indicator::MultipleHardLinks)
        } else if a == 'l' && b == 'c' {
            Some(Indicator::LeftCode)
        } else if a == 'r' && b == 'c' {
            Some(Indicator::RightCode)
        } else if a == 'e' && b == 'c' {
            Some(Indicator::EndCode)
        } else if a == 'r' && b == 's' {
            Some(Indicator::Reset)
        } else if a == 'c' && b == 'l' {
            Some(Indicator::ClearLine)
        } else {
            None
        }
    }

    /// The indicator whose key is `key`, if there is one.
    pub open spec fn of_key(key: Seq<char>) -> Option<Indicator> {
        if key.len() == 2 {
            Indicator::of_letters(key[0], key[1])
        } else {
            None
        }
    }

    /// The indicator whose style stands in where `self` has none of its own:
    /// the kinds of regular file fall back to the regular file, the kinds of
    /// directory to the directory, the broken link to the link and the missing
    /// file to the broken link. Every other indicator is its own fallback.
    ///
    /// The fallback has a fallback in turn, so the missing file is two steps
    /// from the link: where neither it nor the broken link has a style, the
    /// style of the link stands in. No chain is longer than that.
    pub open spec fn fallback(self) -> Indicator {
        match self {
            Indicator::Setuid
            | Indicator::Setgid
            | Indicator::ExecutableFile
            | Indicator::MultipleHardLinks => Indicator::RegularFile,
            Indicator::StickyAndOtherWritable
            | Indicator::OtherWritable
            | Indicator::Sticky => Indicator::Directory,
            Indicator::OrphanedSymbolicLink => Indicator::SymbolicLink,
            Indicator::MissingFile => Indicator::OrphanedSymbolicLink,
            _ => self,
        }
    }

    /// The number of the indicator, in the order of declaration.
    pub open spec fn index(self) -> u8 {
        match self {
            Indicator::Normal => 0,
            Indicator::RegularFile => 1,
            Indicator::Directory => 2,
            Indicator::SymbolicLink => 3,
            Indicator::FIFO => 4,
            Indicator::Socket => 5,
            Indicator::Door => 6,
            Indicator::BlockDevice => 7,
            Indicator::CharacterDevice => 8,
            Indicator::OrphanedSymbolicLink => 9,
            Indicator::Setuid => 10,
            Indicator::Setgid => 11,
            Indicator::Sticky => 12,
            Indicator::OtherWritable => 13,
            Indicator::StickyAndOtherWritable => 14,
            Indicator::ExecutableFile => 15,
            Indicator::MissingFile => 16,
            Indicator::Capabilities => 17,
            Indicator::MultipleHardLinks => 18,
            Indicator::LeftCode => 19,
            Indicator::RightCode => 20,
            Indicator::EndCode => 21,
            Indicator::Reset => 22,
            Indicator::ClearLine => 23,
        }
    }

    /// The indicator that the two-letter key `indicator` names, `None` for any
    /// other text.
    pub fn from(indicator: &str) -> (found: Option<Indicator>)
        ensures
            found == Indicator::of_key(indicator@),
    {
        let chars = chars_of(indicator);
        Indicator::from_chars(chars.as_slice())
    }

    /// The indicator that the two-letter key `key` names.
    pub fn from_chars(key: &[char]) -> (found: Option<Indicator>)
        ensures
            found == Indicator::of_key(key@),
    {
        if key.len() != 2 {
            return None;
        }
        let a: char = key[0];
        let b: char = key[1];
        if a == 'n' && b == 'o' {
            Some(Indicator::Normal)
        } else if a == 'f' && b == 'i' {
            Some(Indicator::RegularFile)
        } else if a == 'd' && b == 'i' {
            Some(Indicator::Directory)
        } else if a == 'l' && b == 'n' {
            Some(Indicator::SymbolicLink)
        } else if a == 'p' && b == 'i' {
            Some(Indicator::FIFO)
        } else if a == 's' && b == 'o' {
            Some(Indicator::Socket)
        } else if a == 'd' && b == 'o' {
            Some(Indicator::Door)
        } else if a == 'b' && b == 'd' {
            Some(Indicator::BlockDevice)
        } else if a == 'c' && b == 'd' {
            Some(Indicator::CharacterDevice)
        } else if a == 'o' && b == 'r' {
            Some(Indicator::OrphanedSymbolicLink)
        } else if a == 's' && b == 'u' {
            Some(Indicator::Setuid)
        } else if a == 's' && b == 'g' {
            Some(Indicator::Setgid)
        } else if a == 's' && b == 't' {
            Some(Indicator::Sticky)
        } else if a == 'o' && b == 'w' {
            Some(Indicator::OtherWritable)
        } else if a == 't' && b == 'w' {
            Some(Indicator::StickyAndOtherWritable)
        } else if a == 'e' && b == 'x' {
            Some(Indicator::ExecutableFile)
        } else if a == 'm' && b == 'i' {
            Some(Indicator::MissingFile)
        } else if a == 'c' && b == 'a' {
            Some(Indicator::Capabilities)
        } else if a == 'm' && b == 'h' {
            Some(Indicator::MultipleHardLinks)
        } else if a == 'l' && b == 'c' {
            Some(Indicator::LeftCode)
        } else if a == 'r' && b == 'c' {
            Some(Indicator::RightCode)
        } else if a == 'e' && b == 'c' {
            Some(Indicator::EndCode)
        } else if a == 'r' && b == 's' {
            Some(Indicator::Reset)
        } else if a == 'c' && b == 'l' {
            Some(Indicator::ClearLine)
        } else {
            None
        }
    }

    /// The indicator whose style stands in where `self` has none of its own.
    pub fn fallback_of(self) -> (other: Indicator)
        ensures
            other == self.fallback(),
    {
        match self {
            Indicator::Setuid
            | Indicator::Setgid
            | Indicator::ExecutableFile
            | Indicator::MultipleHardLinks => Indicator::RegularFile,
            Indicator::StickyAndOtherWritable
            | Indicator::OtherWritable
            | Indicator::Sticky => Indicator::Directory,
            Indicator::OrphanedSymbolicLink => Indicator::SymbolicLink,
            Indicator::MissingFile => Indicator::OrphanedSymbolicLink,
            _ => self,
        }
    }

    /// The number of the indicator, in the order of declaration.
    pub fn number(self) -> (n: u8)
        ensures
            n == self.index(),
    {
        match self {
            Indicator::Normal => 0,
            Indicator::RegularFile => 1,
            Indicator::Directory => 2,
            Indicator::SymbolicLink => 3,
            Indicator::FIFO => 4,
            Indicator::Socket => 5,
            Indicator::Door => 6,
            Indicator::BlockDevice => 7,
            Indicator::CharacterDevice => 8,
            Indicator::OrphanedSymbolicLink => 9,
            Indicator::Setuid => 10,
            Indicator::Setgid => 11,
            Indicator::Sticky => 12,
            Indicator::OtherWritable => 13,
            Indicator::StickyAndOtherWritable => 14,
            Indicator::ExecutableFile => 15,
            Indicator::MissingFile => 16,
            Indicator::Capabilities => 17,
            Indicator::MultipleHardLinks => 18,
            Indicator::LeftCode => 19,
            Indicator::RightCode => 20,
            Indicator::EndCode => 21,
            Indicator::Reset => 22,
            Indicator::ClearLine => 23,
        }
    }

    /// Every indicator is found again by its key.
    pub proof fn lemma_key_names(self)
        ensures
            Indicator::of_key(self.key()) == Some(self),
    {
    }

    /// A text names an indicator only if it is that indicator's key.
    pub proof fn law_named_by_key(key: Seq<char>, named: Indicator)
        requires
            Indicator::of_key(key) == Some(named),
        ensures
            key == named.key(),
    {
        assert(key =~= named.key());
    }

    /// Different indicators have different numbers.
    pub proof fn lemma_index_distinct(self, other: Indicator)
        ensures
            self.index() == other.index() <==> self == other,
            self.index() < 24,
    {
    }

    /// At most two steps of fallback lead to an indicator that is its own
    /// fallback.
    pub proof fn law_fallback_closes(self)
        ensures
            self.fallback().fallback().fallback() == self.fallback().fallback(),
    {
    }
}

} // verus!
