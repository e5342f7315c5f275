//! Emulator configuration consumed by the core: memory size, clock rate,
//! window geometry for the debugger, and the debug-mode switch.

use vstd::prelude::*;

verus! {

/// Settings the emulator core reads. The host fills one in (from a file,
/// the command line, or defaults) and hands it to the core; the core only
/// ever reads it back through the getters.
pub struct Config {
    /// Amount of memory the system will have, in bytes.
    pub mem: u32,
    /// Number of CPUs the system will have.
    pub ncpu: u32,
    /// Path to the configuration file.
    pub config_file_path: String,
    /// Path to the system cache directory.
    pub cache_path: String,
    /// The clock rate in cycles per second; 0 disables pacing.
    pub clock_rate: u64,
    /// Width of the main window.
    pub win_width: u32,
    /// Height of the main window.
    pub win_height: u32,
    /// Width of the debugger window.
    pub debug_win_width: u32,
    /// Height of the debugger window.
    pub debug_win_height: u32,
    /// True if in debug mode, false otherwise.
    pub debug_mode: bool,
}

impl Config {
    /// Create a configuration with every setting zeroed or empty.
    pub fn new() -> (r: Config)
        ensures
            r.mem == 0,
            r.ncpu == 0,
            r.clock_rate == 0,
            r.win_width == 0,
            r.win_height == 0,
            r.debug_win_width == 0,
            r.debug_win_height == 0,
            !r.debug_mode,
            r.config_file_path@.len() == 0,
            r.cache_path@.len() == 0,
    {
        Config {
            mem: 0,
            ncpu: 0,
            config_file_path: String::new(),
            cache_path: String::new(),
            clock_rate: 0,
            win_width: 0,
            win_height: 0,
            debug_win_width: 0,
            debug_win_height: 0,
            debug_mode: false,
        }
    }

    /// Create a configuration from explicit settings.
    pub fn with_settings(
        mem: u32,
        ncpu: u32,
        config_file_path: String,
        cache_path: String,
        clock_rate: u64,
        win_width: u32,
        win_height: u32,
        debug_win_width: u32,
        debug_win_height: u32,
        debug_mode: bool,
    ) -> (r: Config)
        ensures
            r.mem == mem,
            r.ncpu == ncpu,
            r.clock_rate == clock_rate,
            r.win_width == win_width,
            r.win_height == win_height,
            r.debug_win_width == debug_win_width,
            r.debug_win_height == debug_win_height,
            r.debug_mode == debug_mode,
            r.config_file_path == config_file_path,
            r.cache_path == cache_path,
    {
        Config {
            mem,
            ncpu,
            config_file_path,
            cache_path,
            clock_rate,
            win_width,
            win_height,
            debug_win_width,
            debug_win_height,
            debug_mode,
        }
    }

    pub fn get_debug_win_width(&self) -> (r: u32)
        ensures
            r == self.debug_win_width,
    {
        self.debug_win_width
    }

    pub fn get_debug_win_height(&self) -> (r: u32)
        ensures
            r == self.debug_win_height,
    {
        self.debug_win_height
    }

    pub fn get_win_width(&self) -> (r: u32)
        ensures
            r == self.win_width,
    {
        self.win_width
    }

    pub fn get_win_height(&self) -> (r: u32)
        ensures
            r == self.win_height,
    {
        self.win_height
    }

    pub fn get_mem_size(&self) -> (r: u32)
        ensures
            r == self.mem,
    {
        self.mem
    }

    pub fn get_ncpus(&self) -> (r: u32)
        ensures
            r == self.ncpu,
    {
        self.ncpu
    }

    pub fn get_clock_rate(&self) -> (r: u64)
        ensures
            r == self.clock_rate,
    {
        self.clock_rate
    }

    pub fn is_debug_mode(&self) -> (r: bool)
        ensures
            r == self.debug_mode,
    {
        self.debug_mode
    }

    /// The memory size, visible to contracts.
    pub open spec fn spec_mem_size(&self) -> u32 {
        self.mem
    }

    /// The clock rate, visible to contracts.
    pub open spec fn spec_clock_rate(&self) -> u64 {
        self.clock_rate
    }
}

} // verus!
