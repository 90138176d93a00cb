//! The file formats that an external table can be stored in.

use vstd::prelude::*;
use vstd::string::*;
use crate::error::ParserError;
use crate::text::same_text;

verus! {

/// The file format of an external table.
#[derive(Debug, Clone, Copy, PartialEq, Eq, Hash)]
pub enum FileFormat {
    TEXTFILE,
    SEQUENCEFILE,
    ORC,
    PARQUET,
    AVRO,
    RCFILE,
    JSONFILE,
}

impl FileFormat {
    /// The keyword that names the format when it is read.
    pub open spec fn keyword(&self) -> Seq<char> {
        match self {
            FileFormat::TEXTFILE => "TEXTFILE"@,
            FileFormat::SEQUENCEFILE => "SEQUENCEFILE"@,
            FileFormat::ORC => "ORC"@,
            FileFormat::PARQUET => "PARQUET"@,
            FileFormat::AVRO => "AVRO"@,
            FileFormat::RCFILE => "RCFILE"@,
            FileFormat::JSONFILE => "JSONFILE"@,
        }
    }

    /// The keyword that the format is written with: its own, but for
    /// `JSONFILE`, which is written `TEXTFILE`. The text of that one format
    /// therefore does not read back as itself. This looks like a slip and
    /// not like an alias; it is kept, and stated here, because readers of
    /// the output may rely on it, until it is settled which was meant.
    pub open spec fn sql(&self) -> Seq<char> {
        match self {
            FileFormat::JSONFILE => "TEXTFILE"@,
            _ => self.keyword(),
        }
    }

    /// The format that a keyword names. The keyword must match exactly, in
    /// upper case.
    pub open spec fn parse(s: Seq<char>) -> Option<FileFormat> {
        if s == "TEXTFILE"@ {
            Some(FileFormat::TEXTFILE)
        } else if s == "SEQUENCEFILE"@ {
            Some(FileFormat::SEQUENCEFILE)
        } else if s == "ORC"@ {
            Some(FileFormat::ORC)
        } else if s == "PARQUET"@ {
            Some(FileFormat::PARQUET)
        } else if s == "AVRO"@ {
            Some(FileFormat::AVRO)
        } else if s == "RCFILE"@ {
            Some(FileFormat::RCFILE)
        } else if s == "JSONFILE"@ {
            Some(FileFormat::JSONFILE)
        } else {
            None
        }
    }

    /// The message for a keyword that names no format.
    pub open spec fn parse_failure(s: Seq<char>) -> Seq<char> {
        "Unexpected file format: "@ + s
    }

    /// The keyword that the format is written with.
    pub fn to_string(&self) -> (res: String)
        ensures
            res@ == self.sql(),
    {
        match self {
            FileFormat::TEXTFILE => String::from_str("TEXTFILE"),
            FileFormat::SEQUENCEFILE => String::from_str("SEQUENCEFILE"),
            FileFormat::ORC => String::from_str("ORC"),
            FileFormat::PARQUET => String::from_str("PARQUET"),
            FileFormat::AVRO => String::from_str("AVRO"),
            FileFormat::RCFILE => String::from_str("RCFILE"),
            FileFormat::JSONFILE => String::from_str("TEXTFILE"),
        }
    }

    /// Reads a format from its keyword. Any other text is an error whose
    /// message ends with that text.
    pub fn from_str(s: &str) -> (res: Result<FileFormat, ParserError>)
        ensures
            match res {
                Ok(format) => Self::parse(s@) == Some(format),
                Err(e) => Self::parse(s@) is None && e.message() == Self::parse_failure(s@),
            },
    {
        if same_text(s, "TEXTFILE") {
            Ok(FileFormat::TEXTFILE)
        } else if same_text(s, "SEQUENCEFILE") {
            Ok(FileFormat::SEQUENCEFILE)
        } else if same_text(s, "ORC") {
            Ok(FileFormat::ORC)
        } else if same_text(s, "PARQUET") {
            Ok(FileFormat::PARQUET)
        } else if same_text(s, "AVRO") {
            Ok(FileFormat::AVRO)
        } else if same_text(s, "RCFILE") {
            Ok(FileFormat::RCFILE)
        } else if same_text(s, "JSONFILE") {
            Ok(FileFormat::JSONFILE)
        } else {
            let mut msg = String::from_str("Unexpected file format: ");
            msg.append(s);
            Err(ParserError::ParserError(msg))
        }
    }
}

impl core::str::FromStr for FileFormat {
    type Err = ParserError;

    /// Reads a format from its keyword, as `FileFormat::from_str` does.
    fn from_str(s: &str) -> (res: Result<FileFormat, ParserError>)
        ensures
            match res {
                Ok(format) => FileFormat::parse(s@) == Some(format),
                Err(e) => FileFormat::parse(s@) is None && e.message() == FileFormat::parse_failure(
                    s@,
                ),
            },
    {
        FileFormat::from_str(s)
    }
}

/// A keyword names a format exactly when it is that format's keyword,
/// letter for letter: no other case, no part of it, nothing around it.
pub proof fn lemma_file_format_parse_exact(s: Seq<char>, format: FileFormat)
    ensures
        FileFormat::parse(s) == Some(format) <==> s == format.keyword(),
{
    reveal_strlit("TEXTFILE");
    reveal_strlit("SEQUENCEFILE");
    reveal_strlit("ORC");
    reveal_strlit("PARQUET");
    reveal_strlit("AVRO");
    reveal_strlit("RCFILE");
    reveal_strlit("JSONFILE");
    assert("TEXTFILE"@.len() == 8);
    assert("SEQUENCEFILE"@.len() == 12);
    assert("ORC"@.len() == 3);
    assert("PARQUET"@.len() == 7);
    assert("AVRO"@.len() == 4);
    assert("RCFILE"@.len() == 6);
    assert("JSONFILE"@.len() == 8);
    assert("TEXTFILE"@[0] != "JSONFILE"@[0]);
}

/// What a format is written as reads back as that format, but for
/// `JSONFILE`, which comes back as `TEXTFILE`.
pub proof fn lemma_file_format_round_trip(format: FileFormat)
    ensures
        format != FileFormat::JSONFILE ==> FileFormat::parse(format.sql()) == Some(format),
        format == FileFormat::JSONFILE ==> FileFormat::parse(format.sql()) == Some(
            FileFormat::TEXTFILE,
        ),
{
    if format != FileFormat::JSONFILE {
        lemma_file_format_parse_exact(format.sql(), format);
    }
}

/// A keyword in lower case names no format, and neither does a word that is
/// no keyword at all.
pub proof fn lemma_file_format_rejects()
    ensures
        FileFormat::parse("parquet"@) is None,
        FileFormat::parse("CSV"@) is None,
        FileFormat::parse(""@) is None,
{
    reveal_strlit("TEXTFILE");
    reveal_strlit("SEQUENCEFILE");
    reveal_strlit("ORC");
    reveal_strlit("PARQUET");
    reveal_strlit("AVRO");
    reveal_strlit("RCFILE");
    reveal_strlit("JSONFILE");
    reveal_strlit("parquet");
    reveal_strlit("CSV");
    reveal_strlit("");
    assert("parquet"@[0] != "PARQUET"@[0]);
    assert("CSV"@[0] != "ORC"@[0]);
    assert(""@.len() == 0);
    assert("TEXTFILE"@.len() == 8);
    assert("SEQUENCEFILE"@.len() == 12);
    assert("ORC"@.len() == 3);
    assert("PARQUET"@.len() == 7);
    assert("AVRO"@.len() == 4);
    assert("RCFILE"@.len() == 6);
    assert("JSONFILE"@.len() == 8);
}

} // verus!
