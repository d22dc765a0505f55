//! Worker-side engine bootstrap: the window substitute and the plugin set.
//!
//! The engine's own window-management plugin cannot run in a worker context,
//! so a substitute step locates the single primary-window entity, extracts
//! the offscreen surface attached to its configuration, wraps it in the
//! engine's platform-handle variant and attaches the handle back onto the
//! entity. It runs once, synchronously, before any frame executes, and
//! aborts if zero or more than one primary window exists, or if the window
//! was not configured with an offscreen surface.

use vstd::prelude::*;
use crate::surface::SurfaceDesc;

verus! {

/// The drawable element a window was configured with.
#[derive(Clone, Copy, PartialEq, Eq, Structural, Debug)]
pub enum WebElement {
    /// An offscreen surface, described by its size.
    OffscreenCanvas(SurfaceDesc),
    /// An on-page canvas element, unusable from a worker context.
    HtmlCanvas,
    /// No drawable element attached.
    Absent,
}

/// The platform handle the renderer picks up from the window entity.
#[derive(Clone, Copy, PartialEq, Eq, Structural, Debug)]
pub enum PlatformHandle {
    /// A handle wrapping an offscreen surface.
    WebOffscreen(SurfaceDesc),
}

/// One window entity of the engine's world.
#[derive(Clone, Copy, PartialEq, Eq, Structural, Debug)]
pub struct WindowEntity {
    /// Whether this entity is marked as the primary window.
    pub primary: bool,
    /// The drawable element the window was configured with.
    pub element: WebElement,
    /// The platform handle, once the substitute step has attached it.
    pub handle: Option<PlatformHandle>,
}

/// The part of the engine's world the bootstrap reads and writes.
pub struct EngineWorld {
    pub windows: Vec<WindowEntity>,
}

/// Why the window-substitute step aborted.
#[derive(Clone, Copy, PartialEq, Eq, Structural, Debug)]
pub enum BootError {
    /// No entity is marked as the primary window.
    NoPrimaryWindow,
    /// More than one entity is marked as the primary window.
    MultiplePrimaryWindows,
    /// The primary window's element is not an offscreen surface.
    UnsupportedElement,
}

/// How many of the first `n` windows are marked primary.
pub open spec fn primaries_among(s: Seq<WindowEntity>, n: int) -> int
    decreases n,
{
    if n <= 0 {
        0
    } else {
        primaries_among(s, n - 1) + if s[n - 1].primary {
            1int
        } else {
            0int
        }
    }
}

/// How many windows of the world are marked primary.
pub open spec fn primary_count(s: Seq<WindowEntity>) -> int {
    primaries_among(s, s.len() as int)
}

proof fn lemma_primaries_among_bounds(s: Seq<WindowEntity>, n: int)
    requires
        0 <= n <= s.len(),
    ensures
        0 <= primaries_among(s, n) <= n,
    decreases n,
{
    if n > 0 {
        lemma_primaries_among_bounds(s, n - 1);
    }
}

/// A count of zero among the first `n` windows means none of them is primary.
proof fn lemma_no_primary_means_none(s: Seq<WindowEntity>, n: int)
    requires
        0 <= n <= s.len(),
        primaries_among(s, n) == 0,
    ensures
        forall|i: int| 0 <= i < n ==> !s[i].primary,
    decreases n,
{
    if n > 0 {
        lemma_primaries_among_bounds(s, n - 1);
        lemma_no_primary_means_none(s, n - 1);
    }
}

impl EngineWorld {
    /// True once exactly one primary window exists and it carries the handle
    /// wrapping the surface it was configured with.
    pub open spec fn primary_window_registered(self) -> bool {
        &&& primary_count(self.windows@) == 1
        &&& forall|i: int|
            0 <= i < self.windows@.len() && self.windows@[i].primary ==> (#[trigger] self.windows@[i].handle
                matches Some(PlatformHandle::WebOffscreen(d)) && self.windows@[i].element
                == WebElement::OffscreenCanvas(d))
    }
}

/// Finds the index of the primary window, proving it unique, or reports how
/// the count is wrong.
fn find_unique_primary(world: &EngineWorld) -> (r: Result<usize, BootError>)
    ensures
        match r {
            Ok(i) => {
                &&& primary_count(world.windows@) == 1
                &&& 0 <= i < world.windows@.len()
                &&& world.windows@[i as int].primary
                &&& forall|j: int|
                    0 <= j < world.windows@.len() && j != i
                        ==> !(#[trigger] world.windows@[j]).primary
            },
            Err(BootError::NoPrimaryWindow) => primary_count(world.windows@) == 0,
            Err(BootError::MultiplePrimaryWindows) => primary_count(world.windows@) >= 2,
            Err(_) => false,
        },
{
    let ghost s = world.windows@;
    let mut found: Option<usize> = None;
    let mut k: usize = 0;
    while k < world.windows.len()
        invariant
            0 <= k <= s.len(),
            s == world.windows@,
            match found {
                None => primaries_among(s, k as int) == 0,
                Some(i) => {
                    &&& primaries_among(s, k as int) == 1
                    &&& 0 <= i < k
                    &&& s[i as int].primary
                    &&& forall|j: int| 0 <= j < k && j != i ==> !(#[trigger] s[j]).primary
                },
            },
        decreases s.len() - k,
    {
        if world.windows[k].primary {
            match found {
                None => {
                    proof {
                        lemma_no_primary_means_none(s, k as int);
                    }
                    found = Some(k);
                },
                Some(_) => {
                    proof {
                        lemma_primaries_among_bounds(s, s.len() as int);
                        lemma_count_monotone(s, k as int + 1, s.len() as int);
                    }
                    return Err(BootError::MultiplePrimaryWindows);
                },
            }
        }
        k = k + 1;
    }
    match found {
        None => {
            proof {
                lemma_no_primary_means_none(s, s.len() as int);
            }
            Err(BootError::NoPrimaryWindow)
        },
        Some(i) => Ok(i),
    }
}

/// The running count of primaries never falls as the prefix grows.
proof fn lemma_count_monotone(s: Seq<WindowEntity>, n: int, m: int)
    requires
        0 <= n <= m <= s.len(),
    ensures
        primaries_among(s, n) <= primaries_among(s, m),
    decreases m - n,
{
    if n < m {
        lemma_count_monotone(s, n, m - 1);
    }
}

/// Two worlds whose windows agree on the primary flag have the same count.
proof fn lemma_count_same_flags(s1: Seq<WindowEntity>, s2: Seq<WindowEntity>, n: int)
    requires
        s1.len() == s2.len(),
        0 <= n <= s1.len(),
        forall|j: int| 0 <= j < n ==> s1[j].primary == (#[trigger] s2[j]).primary,
    ensures
        primaries_among(s1, n) == primaries_among(s2, n),
    decreases n,
{
    if n > 0 {
        lemma_count_same_flags(s1, s2, n - 1);
    }
}

/// The window-substitute plugin: in place of the engine's native window
/// management, its build step runs the one-time fix-up below before any
/// frame executes.
#[derive(Default)]
pub struct RegisterPrimaryWindow;

impl RegisterPrimaryWindow {
    /// The window-substitute step: locates the unique primary window,
    /// extracts the offscreen surface from its configuration, wraps it in
    /// the platform handle and attaches the handle to the entity. Aborts,
    /// leaving the world unchanged, if the primary window is not unique or
    /// carries no offscreen surface.
    pub fn build(&self, world: &mut EngineWorld) -> (r: Result<(), BootError>)
        ensures
            match r {
                Ok(()) => {
                    &&& primary_count(old(world).windows@) == 1
                    &&& exists|i: int|
                        {
                            &&& 0 <= i < old(world).windows@.len()
                            &&& (#[trigger] old(world).windows@[i]).primary
                            &&& old(world).windows@[i].element matches WebElement::OffscreenCanvas(
                                d,
                            )
                            &&& final(world).windows@ == old(world).windows@.update(
                                i,
                                WindowEntity {
                                    handle: Some(PlatformHandle::WebOffscreen(d)),
                                    ..old(world).windows@[i]
                                },
                            )
                        }
                    &&& final(world).primary_window_registered()
                },
                Err(e) => {
                    &&& *final(world) == *old(world)
                    &&& match e {
                        BootError::NoPrimaryWindow => primary_count(old(world).windows@) == 0,
                        BootError::MultiplePrimaryWindows => primary_count(old(world).windows@)
                            >= 2,
                        BootError::UnsupportedElement => {
                            &&& primary_count(old(world).windows@) == 1
                            &&& forall|i: int|
                                0 <= i < old(world).windows@.len() && (#[trigger] old(
                                    world,
                                ).windows@[i]).primary ==> !(old(world).windows@[i].element
                                    is OffscreenCanvas)
                        },
                    }
                },
            },
    {
        let i = match find_unique_primary(world) {
            Ok(i) => i,
            Err(e) => {
                return Err(e);
            },
        };
        let desc = match world.windows[i].element {
            WebElement::OffscreenCanvas(d) => d,
            _ => {
                return Err(BootError::UnsupportedElement);
            },
        };
        let entity = WindowEntity {
            primary: world.windows[i].primary,
            element: world.windows[i].element,
            handle: Some(PlatformHandle::WebOffscreen(desc)),
        };
        let ghost before = world.windows@;
        world.windows.set(i, entity);
        proof {
            let after = world.windows@;
            assert forall|j: int| 0 <= j < after.len() implies before[j].primary == (
            #[trigger] after[j]).primary by {}
            lemma_count_same_flags(before, after, after.len() as int);
        }
        Ok(())
    }
}

} // verus!
