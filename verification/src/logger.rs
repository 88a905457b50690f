use vstd::prelude::*;

verus! {

/// Severity of a log line.
#[derive(Clone, Copy, Debug, PartialEq, Eq, Structural)]
pub enum LogType {
    Info,
    Debug,
    Error,
    Warning,
    Critical,
}

impl LogType {
    pub open spec fn label_text(self) -> Seq<char> {
        match self {
            LogType::Info => "INFO"@,
            LogType::Debug => "DEBUG"@,
            LogType::Error => "ERROR"@,
            LogType::Warning => "WARNING"@,
            LogType::Critical => "CRITICAL"@,
        }
    }

    pub fn label(&self) -> (s: String)
        ensures
            s@ == self.label_text(),
    {
        match self {
            LogType::Info => String::from_str("INFO"),
            LogType::Debug => String::from_str("DEBUG"),
            LogType::Error => String::from_str("ERROR"),
            LogType::Warning => String::from_str("WARNING"),
            LogType::Critical => String::from_str("CRITICAL"),
        }
    }
}

/// Where a log line is echoed when the logger prints to the console.
#[derive(Clone, Copy, Debug, PartialEq, Eq, Structural)]
pub enum ConsoleStream {
    Stdout,
    Stderr,
}

/// A line to echo on the console.
pub struct ConsoleLine {
    pub stream: ConsoleStream,
    pub text: String,
}

/// The text of a log line: date, severity and message, separated by spaces.
pub open spec fn log_line(date: Seq<char>, log_type: LogType, message: Seq<char>) -> Seq<char> {
    date + " "@ + log_type.label_text() + " "@ + message
}

/// The console stream for a log line of the given severity: errors go to
/// the error stream, the rest to the standard output.
pub open spec fn console_stream(log_type: LogType) -> ConsoleStream {
    if log_type == LogType::Error {
        ConsoleStream::Stderr
    } else {
        ConsoleStream::Stdout
    }
}

/// Lines joined, each followed by a newline.
pub open spec fn joined_lines(lines: Seq<Seq<char>>) -> Seq<char>
    decreases lines.len(),
{
    if lines.len() == 0 {
        Seq::empty()
    } else {
        joined_lines(lines.drop_last()) + lines.last() + "\n"@
    }
}

/// The texts of a sequence of strings.
pub open spec fn texts(lines: Seq<String>) -> Seq<Seq<char>> {
    lines.map_values(|s: String| s@)
}

/// A decimal digit.
pub open spec fn is_digit(c: char) -> bool {
    ('0' as u32) <= (c as u32) <= ('9' as u32)
}

/// The shape of `Y.MM.DD hh:mm:ss`: a year of at least four characters,
/// then two-digit month, day, hour, minute and second with those
/// separators.
pub open spec fn clock_text(d: Seq<char>) -> bool {
    let n = d.len() as int;
    &&& n >= 19
    &&& d[n - 15] == '.'
    &&& d[n - 12] == '.'
    &&& d[n - 9] == ' '
    &&& d[n - 6] == ':'
    &&& d[n - 3] == ':'
    &&& forall|i: int|
        n - 15 < i < n && i != n - 12 && i != n - 9 && i != n - 6 && i != n - 3 ==> is_digit(
            #[trigger] d[i],
        )
}

/// The current date and time, as `YYYY.MM.DD hh:mm:ss` in UTC.
///
/// Calls `chrono::Utc::now` and `DateTime::format` with
/// `%Y.%m.%d %H:%M:%S`. Which date comes back depends on the clock; what is
/// stated is the shape that chrono documents for these fields: `%Y` is at
/// least four characters (zero-padded, with a sign outside years 0 to
/// 9999), the others are zero-padded to two digits.
#[verifier::external_body]
fn current_date_and_time() -> (d: String)
    ensures
        clock_text(d@),
{
    chrono::Utc::now().format("%Y.%m.%d %H:%M:%S").to_string()
}

/// Formats log lines, keeps them in a buffer until they are flushed to the
/// log file, and says which of them to echo on the console.
#[derive(Clone, Debug)]
pub struct Logger {
    pub logfile_path: String,
    pub buffer: Vec<String>,
    pub print_to_console: bool,
}

impl Logger {
    pub fn new(logfile_path: String, print_to_console: bool) -> (l: Logger)
        ensures
            l.logfile_path == logfile_path,
            l.buffer@ == Seq::<String>::empty(),
            l.print_to_console == print_to_console,
    {
        Logger { logfile_path, buffer: Vec::new(), print_to_console }
    }

    pub fn set_print_to_console(&mut self, print_to_console: bool)
        ensures
            final(self).print_to_console == print_to_console,
            final(self).logfile_path == old(self).logfile_path,
            final(self).buffer@ == old(self).buffer@,
    {
        self.print_to_console = print_to_console;
    }

    pub fn get_logfile_path(&self) -> (p: &String)
        ensures
            *p == self.logfile_path,
    {
        &self.logfile_path
    }

    /// The console line for `text`, if this logger prints to the console.
    pub open spec fn console_for(&self, log_type: LogType, text: Seq<char>) -> Option<
        (ConsoleStream, Seq<char>),
    > {
        if self.print_to_console {
            Some((console_stream(log_type), text))
        } else {
            None
        }
    }

    fn echo(&self, log_type: LogType, text: &String) -> (c: Option<ConsoleLine>)
        ensures
            self.console_for(log_type, text@) == match c {
                Some(line) => Some((line.stream, line.text@)),
                None => None,
            },
    {
        if self.print_to_console {
            let stream = if log_type == LogType::Error {
                ConsoleStream::Stderr
            } else {
                ConsoleStream::Stdout
            };
            Some(ConsoleLine { stream, text: text.clone() })
        } else {
            None
        }
    }

    /// The log line for `message`, dated `date`.
    pub fn format_message_at(date: &str, log_type: LogType, message: &str) -> (s: String)
        ensures
            s@ == log_line(date@, log_type, message@),
    {
        let mut s = String::from_str(date);
        s.append(" ");
        let label = log_type.label();
        s.append(label.as_str());
        s.append(" ");
        s.append(message);
        proof {
            reveal_strlit(" ");
        }
        s
    }

    /// The log line for `message`, dated now.
    pub fn format_message(&self, log_type: LogType, message: &str) -> (s: String)
        ensures
            exists|date: Seq<char>| clock_text(date) && s@ == log_line(date, log_type, message@),
    {
        let date = current_date_and_time();
        Self::format_message_at(date.as_str(), log_type, message)
    }

    /// Appends the log line for `message`, dated `date`, to the buffer and
    /// returns the line to echo on the console, if any.
    pub fn log_buffered_at(&mut self, date: &str, log_type: LogType, message: &str) -> (c: Option<
        ConsoleLine,
    >)
        ensures
            final(self).buffer@.len() == old(self).buffer@.len() + 1,
            texts(final(self).buffer@) == texts(old(self).buffer@).push(
                log_line(date@, log_type, message@),
            ),
            final(self).logfile_path == old(self).logfile_path,
            final(self).print_to_console == old(self).print_to_console,
            old(self).console_for(log_type, log_line(date@, log_type, message@)) == match c {
                Some(line) => Some((line.stream, line.text@)),
                None => None,
            },
    {
        let msg = Self::format_message_at(date, log_type, message);
        let c = self.echo(log_type, &msg);
        let ghost before = self.buffer@;
        self.buffer.push(msg);
        proof {
            assert(texts(self.buffer@) =~= texts(before).push(log_line(date@, log_type, message@)));
        }
        c
    }

    /// Appends the log line for `message`, dated now, to the buffer and
    /// returns the line to echo on the console, if any.
    pub fn log_buffered(&mut self, log_type: LogType, message: &str) -> (c: Option<ConsoleLine>)
        ensures
            final(self).buffer@.len() == old(self).buffer@.len() + 1,
            exists|date: Seq<char>|
                {
                    &&& clock_text(date)
                    &&& texts(final(self).buffer@) == texts(old(self).buffer@).push(
                        log_line(date, log_type, message@),
                    )
                    &&& old(self).console_for(log_type, log_line(date, log_type, message@))
                        == match c {
                        Some(line) => Some((line.stream, line.text@)),
                        None => None,
                    }
                },
            final(self).logfile_path == old(self).logfile_path,
            final(self).print_to_console == old(self).print_to_console,
    {
        let date = current_date_and_time();
        self.log_buffered_at(date.as_str(), log_type, message)
    }

    /// Empties the buffer and returns its lines, each followed by a newline,
    /// ready to be appended to the log file.
    pub fn drain_buffer(&mut self) -> (s: String)
        ensures
            s@ == joined_lines(texts(old(self).buffer@)),
            final(self).buffer@ == Seq::<String>::empty(),
            final(self).logfile_path == old(self).logfile_path,
            final(self).print_to_console == old(self).print_to_console,
    {
        let mut s = String::new();
        let n = self.buffer.len();
        for i in 0..n
            invariant
                n == self.buffer.len(),
                s@ == joined_lines(texts(self.buffer@.take(i as int))),
        {
            s.append(self.buffer[i].as_str());
            s.append("\n");
            proof {
                assert(self.buffer@.take(i as int + 1).drop_last() =~= self.buffer@.take(i as int));
                assert(texts(self.buffer@.take(i as int + 1)).drop_last() =~= texts(
                    self.buffer@.take(i as int),
                ));
            }
        }
        proof {
            assert(self.buffer@.take(n as int) =~= self.buffer@);
        }
        self.buffer = Vec::new();
        s
    }

    /// The log line for `message`, dated now and followed by a newline,
    /// ready to be appended to the log file at once, and the line to echo
    /// on the console, if any. The buffer is not touched.
    pub fn log_line_now(&self, log_type: LogType, message: &str) -> (r: (String, Option<ConsoleLine>))
        ensures
            exists|date: Seq<char>|
                {
                    &&& clock_text(date)
                    &&& r.0@ == log_line(date, log_type, message@) + "\n"@
                    &&& self.console_for(log_type, log_line(date, log_type, message@)) == match r.1 {
                        Some(line) => Some((line.stream, line.text@)),
                        None => None,
                    }
                },
    {
        let msg = self.format_message(log_type, message);
        let c = self.echo(log_type, &msg);
        let mut line = msg.clone();
        line.append("\n");
        (line, c)
    }
}

} // verus!
