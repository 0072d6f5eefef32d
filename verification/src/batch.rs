//! The batch system: the table of user programs embedded in the kernel, and
//! where the one chosen to run is copied before the kernel jumps to it.

use vstd::prelude::*;
use crate::bsp::Board;

verus! {

/// One embedded user program.
pub struct AppInfo {
    /// The program's name.
    pub name: String,
    /// Size of its flat binary image in bytes.
    pub size: usize,
}

/// The embedded user programs, in build order.
pub struct AppManager {
    apps: Vec<AppInfo>,
}

impl View for AppManager {
    type V = Seq<AppInfo>;

    closed spec fn view(&self) -> Seq<AppInfo> {
        self.apps@
    }
}

/// Where a program's image goes and where execution starts.
#[derive(Clone, Copy, Debug, PartialEq, Eq, Structural)]
pub struct AppLoad {
    /// Index of the program in the table.
    pub index: usize,
    /// Destination address of the copy; also the program's entry point
    /// (`_start` is linked at the start of the image).
    pub dst: usize,
    /// Number of bytes to copy: the whole image.
    pub len: usize,
}

impl AppManager {
    /// The table of `apps`, in the given order.
    pub fn new(apps: Vec<AppInfo>) -> (r: Self)
        ensures
            r@ == apps@,
    {
        AppManager { apps }
    }

    /// Number of embedded programs.
    pub fn app_count(&self) -> (r: usize)
        ensures
            r == self@.len(),
    {
        self.apps.len()
    }

    /// The program at `index`.
    pub fn app(&self, index: usize) -> (r: &AppInfo)
        requires
            index < self@.len(),
        ensures
            *r == self@[index as int],
    {
        &self.apps[index]
    }

    /// How to load program `index` on `board`: copy its whole image to the
    /// board's user-program base address, where it is linked, then jump there.
    pub fn load_plan(&self, board: Board, index: usize) -> (r: AppLoad)
        requires
            index < self@.len(),
        ensures
            r == (AppLoad { index, dst: board.spec_app_base(), len: self@[index as int].size }),
    {
        AppLoad { index, dst: board.app_base(), len: self.apps[index].size }
    }
}

} // verus!
