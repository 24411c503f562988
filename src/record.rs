use humansize::{format_size, DECIMAL};
use vstd::prelude::*;
use vstd::string::StringExecFns;

use crate::clock::{
    local_offset_seconds, local_stamp, stamp_in_range, stamp_text, MAX_OFFSET, MAX_TIMESTAMP,
    MIN_TIMESTAMP,
};
use crate::digits::{octal_digits, push_octal};
use crate::kind::{kind_label, FileKind};
use crate::perms::{format_permissions, permission_string};
use crate::style::{no_escape, painted, styled, Hue, Style};

verus! {

/// The size `bytes` written in base-1000 units with a unit suffix (`1 MB`).
pub uninterp spec fn decimal_size_text(bytes: int) -> Seq<char>;

/// Relies on humansize's `format_size` with the `DECIMAL` options: the text
/// depends on the byte count alone.
#[verifier::external_body]
fn size_text(bytes: u64) -> (r: String)
    ensures
        r@ == decimal_size_text(bytes as int),
{
    format_size(bytes, DECIMAL)
}

/// What the listing knows of one filesystem entry.
#[derive(Debug)]
pub struct FileRecord {
    /// The path as the caller gave it.
    pub name: String,
    /// The size in bytes.
    pub size: u64,
    pub kind: FileKind,
    /// The raw mode bits.
    pub mode: u32,
    /// Whether the platform reports the entry as read-only.
    pub readonly: bool,
    /// The last modification, in whole seconds since the Unix epoch.
    pub modified: i64,
}

/// Why a line could not be made.
#[derive(Clone, Copy, Debug, PartialEq, Eq, Structural)]
pub enum DescribeError {
    /// The machine's offset from UTC could not be determined.
    NoLocalOffset,
    /// The modification time, at that offset, lies outside the dates that can
    /// be shown.
    TimeOutOfRange,
}

pub open spec fn readonly_marker(readonly: bool) -> Seq<char> {
    if readonly {
        "READONLY"@
    } else {
        "-"@
    }
}

/// `<kind> <mode in octal> (<symbolic mode>) <size> "<time>" <marker> <name>`.
pub open spec fn line_text(
    kind: Seq<char>,
    mode: u32,
    size: Seq<char>,
    stamp: Seq<char>,
    marker: Seq<char>,
    name: Seq<char>,
) -> Seq<char> {
    kind + seq![' '] + octal_digits(mode as nat) + seq![' ', '('] + permission_string(mode) + seq![
        ')',
        ' ',
    ] + size + seq![' ', '"'] + stamp + seq!['"', ' '] + marker + seq![' '] + name
}

/// The unstyled line for `rec` with the local time taken at `offset` seconds
/// from UTC.
pub open spec fn plain_line(rec: FileRecord, offset: int) -> Seq<char> {
    line_text(
        kind_label(rec.kind),
        rec.mode,
        decimal_size_text(rec.size as int),
        stamp_text(rec.modified + offset),
        readonly_marker(rec.readonly),
        rec.name@,
    )
}

/// Joins the fields of a line, with the mode given as a number and written
/// in octal and in symbolic form.
pub fn compose_line(
    kind: &str,
    mode: u32,
    size: &str,
    stamp: &str,
    marker: &str,
    name: &str,
) -> (r: String)
    ensures
        r@ == line_text(kind@, mode, size@, stamp@, marker@, name@),
{
    proof {
        reveal_strlit(" ");
        reveal_strlit(" (");
        reveal_strlit(") ");
        reveal_strlit(" \"");
        reveal_strlit("\" ");
    }
    let mut line = kind.to_owned();
    line.append(" ");
    push_octal(&mut line, mode);
    line.append(" (");
    let perms = format_permissions(mode);
    line.append(perms.as_str());
    line.append(") ");
    line.append(size);
    line.append(" \"");
    line.append(stamp);
    line.append("\" ");
    line.append(marker);
    line.append(" ");
    line.append(name);
    assert(line@ =~= line_text(kind@, mode, size@, stamp@, marker@, name@));
    line
}

/// An unstyled line begins with the kind's label and a space: `directory `
/// for a directory, `socket ` for a socket, `unknown ` for an entry that
/// passes none of the type tests.
pub proof fn lemma_line_begins_with_label(rec: FileRecord, offset: int)
    ensures
        plain_line(rec, offset).subrange(0, kind_label(rec.kind).len() + 1int) == kind_label(
            rec.kind,
        ) + seq![' '],
{
    let k = kind_label(rec.kind);
    let line = plain_line(rec, offset);
    assert(line.subrange(0, k.len() + 1int) =~= k + seq![' ']);
}

/// The size field of an unstyled line is the decimal size text of the
/// record's byte count, exactly: it follows `) ` after the symbolic mode and
/// precedes ` "` before the time.
pub proof fn lemma_line_holds_size(rec: FileRecord, offset: int)
    ensures
        ({
            let start: int = (kind_label(rec.kind).len() + octal_digits(rec.mode as nat).len() + 14) as int;
            let size = decimal_size_text(rec.size as int);
            let end: int = start + size.len();
            &&& plain_line(rec, offset).subrange(start - 2, start) == seq![')', ' ']
            &&& plain_line(rec, offset).subrange(start, end) == size
            &&& plain_line(rec, offset).subrange(end, end + 2) == seq![' ', '"']
        }),
{
    let k = kind_label(rec.kind);
    let d = octal_digits(rec.mode as nat);
    let size = decimal_size_text(rec.size as int);
    let line = plain_line(rec, offset);
    let start: int = (k.len() + d.len() + 14) as int;
    let end: int = start + size.len();
    assert(permission_string(rec.mode).len() == 9);
    assert(line.subrange(start - 2, start) =~= seq![')', ' ']);
    assert(line.subrange(start, end) =~= size);
    assert(line.subrange(end, end + 2) =~= seq![' ', '"']);
}

impl FileRecord {
    /// The line for this entry with its time shown at `offset` seconds from
    /// UTC, styled for a terminal when `color` is set. A time that cannot be
    /// shown is an error, not a placeholder.
    pub fn describe(&self, offset: i32, color: bool) -> (r: Result<String, DescribeError>)
        ensures
            r.is_ok() <==> stamp_in_range(self.modified as int, offset as int),
            r matches Err(e) ==> e == DescribeError::TimeOutOfRange,
            !color ==> (r matches Ok(l) ==> l@ == plain_line(*self, offset as int)),
            color && no_escape(self.name@) && no_escape(decimal_size_text(self.size as int)) ==> (
            r matches Ok(l) ==> exists|k: Seq<char>, z: Seq<char>, m: Seq<char>, n: Seq<char>|
                {
                    &&& painted(kind_label(self.kind), k)
                    &&& painted(decimal_size_text(self.size as int), z)
                    &&& painted(readonly_marker(self.readonly), m)
                    &&& painted(self.name@, n)
                    &&& l@ == line_text(
                        k,
                        self.mode,
                        z,
                        stamp_text(self.modified + offset),
                        m,
                        n,
                    )
                }),
    {
        let stamp = match local_stamp(self.modified, offset) {
            Some(s) => s,
            None => return Err(DescribeError::TimeOutOfRange),
        };
        proof {
            reveal_strlit("READONLY");
            reveal_strlit("-");
            reveal_strlit("directory");
            reveal_strlit("symlink");
            reveal_strlit("socket");
            reveal_strlit("disk");
            reveal_strlit("file");
            reveal_strlit("unknown");
        }
        let kind = styled(self.kind.label(), self.kind.style(), color);
        let size_plain = size_text(self.size);
        let size = styled(
            size_plain.as_str(),
            Style { fg: Some(Hue::Blue), bg: None, bold: true },
            color,
        );
        let marker_style = if self.readonly {
            Style { fg: Some(Hue::Red), bg: None, bold: true }
        } else {
            Style { fg: Some(Hue::White), bg: None, bold: false }
        };
        let marker = styled(if self.readonly { "READONLY" } else { "-" }, marker_style, color);
        let name = styled(self.name.as_str(), Style { fg: None, bg: None, bold: true }, color);
        let line = compose_line(
            kind.as_str(),
            self.mode,
            size.as_str(),
            stamp.as_str(),
            marker.as_str(),
            name.as_str(),
        );
        proof {
            if color && no_escape(self.name@) && no_escape(decimal_size_text(self.size as int)) {
                assert(no_escape(kind_label(self.kind)));
                assert(no_escape(readonly_marker(self.readonly)));
                assert(painted(kind_label(self.kind), kind@));
                assert(painted(readonly_marker(self.readonly), marker@));
                assert(line@ == line_text(
                    kind@,
                    self.mode,
                    size@,
                    stamp_text(self.modified + offset),
                    marker@,
                    name@,
                ));
            }
        }
        Ok(line)
    }

    /// The line for this entry with its time shown in the machine's present
    /// time zone. Fails when that zone cannot be determined, or when the time
    /// lies outside the dates that can be shown, which cannot happen for a time
    /// that lies more than a day inside them.
    pub fn render(&self, color: bool) -> (r: Result<String, DescribeError>)
        ensures
            !color ==> (r matches Ok(l) ==> exists|o: int|
                #![trigger plain_line(*self, o)]
                -MAX_OFFSET <= o <= MAX_OFFSET && stamp_in_range(self.modified as int, o)
                    && l@ == plain_line(*self, o)),
            color && no_escape(self.name@) && no_escape(decimal_size_text(self.size as int)) ==> (
            r matches Ok(l) ==> exists|
                o: int,
                k: Seq<char>,
                z: Seq<char>,
                m: Seq<char>,
                n: Seq<char>,
            |
                #![trigger line_text(k, self.mode, z, stamp_text(self.modified + o), m, n)]
                {
                    &&& -MAX_OFFSET <= o <= MAX_OFFSET
                    &&& stamp_in_range(self.modified as int, o)
                    &&& painted(kind_label(self.kind), k)
                    &&& painted(decimal_size_text(self.size as int), z)
                    &&& painted(readonly_marker(self.readonly), m)
                    &&& painted(self.name@, n)
                    &&& l@ == line_text(k, self.mode, z, stamp_text(self.modified + o), m, n)
                }),
            r matches Err(DescribeError::TimeOutOfRange) ==> !(MIN_TIMESTAMP + MAX_OFFSET
                <= self.modified <= MAX_TIMESTAMP - MAX_OFFSET),
    {
        match local_offset_seconds() {
            None => Err(DescribeError::NoLocalOffset),
            Some(o) => self.describe(o, color),
        }
    }
}

} // verus!
