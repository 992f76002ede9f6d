use vstd::prelude::*;

verus! {

/// Decides which messages reach the error stream. It gathers the lines to
/// show; writing them out is left to the caller.
#[derive(Clone, Copy, Debug)]
pub struct Logger {
    debug: bool,
}

impl Logger {
    /// Whether debug messages are shown.
    pub closed spec fn enabled(&self) -> bool {
        self.debug
    }

    /// A logger that shows no debug messages.
    pub fn new() -> (logger: Logger)
        ensures
            !logger.enabled(),
    {
        Logger { debug: false }
    }

    /// Adds `msg` to `lines` if debug messages are shown.
    pub fn debug(&self, lines: &mut Vec<String>, msg: String)
        ensures
            final(lines).deep_view() == if self.enabled() {
                old(lines).deep_view().push(msg@)
            } else {
                old(lines).deep_view()
            },
    {
        if self.debug {
            lines.push(msg);
        }
    }

    /// Adds `msg` to `lines`, whether or not debug messages are shown.
    pub fn info(&self, lines: &mut Vec<String>, msg: String)
        ensures
            final(lines).deep_view() == old(lines).deep_view().push(msg@),
    {
        lines.push(msg);
    }
}

/// Turns the debug messages of `logger` on or off.
pub fn set_debug(logger: &mut Logger, debug: bool)
    ensures
        final(logger).enabled() == debug,
{
    logger.debug = debug;
}

/// Whether `logger` shows debug messages.
pub fn get_debug(logger: &Logger) -> (debug: bool)
    ensures
        debug == logger.enabled(),
{
    logger.debug
}

} // verus!
