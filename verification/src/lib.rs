//! A 2D immediate-mode drawing core: the sprite atlas packer, the sheet
//! assembly that copies sprites into the atlas, and the per-frame
//! draw-command recorder, each with machine-checked contracts.
//!
//! Call [build] to configure the framework.

pub mod graphics;
pub mod image;
pub mod internal;
pub mod keyboard;
pub mod mouse;

use crate::internal::{app, executor};
use vstd::prelude::*;

verus! {

/// Returns a builder for configuring the framework.
pub fn build() -> (r: HeartBuilder)
    ensures
        r.app_config.title is None,
        r.executor_config == (executor::Config {
            tick_duration: executor::NANOS_PER_SECOND / executor::DEFAULT_TICK_RATE,
        }),
{
    HeartBuilder::new()
}

/// Builder for the framework.
///
/// Provides `with_*` methods to configure it. Call
/// [run][HeartBuilder::run] to consume the builder.
pub struct HeartBuilder {
    pub app_config: app::Config,
    pub executor_config: executor::Config,
}

/// What the event loop starts from: the window's configuration, the
/// executor, and the input states in which nothing is pressed.
pub struct Heart {
    pub app_config: app::Config,
    pub executor: executor::Executor,
    pub keyboard: keyboard::state::State,
    pub mouse: mouse::state::State,
}

impl HeartBuilder {
    /// Same as calling [build].
    pub fn new() -> (r: HeartBuilder)
        ensures
            r.app_config.title is None,
            r.executor_config == (executor::Config {
                tick_duration: executor::NANOS_PER_SECOND / executor::DEFAULT_TICK_RATE,
            }),
    {
        HeartBuilder {
            app_config: app::Config::default(),
            executor_config: executor::Config::default(),
        }
    }

    /// Sets the title for the window.
    pub fn with_title(self, title: String) -> (r: HeartBuilder)
        ensures
            r.app_config.title == Some(title),
            r.executor_config == self.executor_config,
    {
        let mut builder = self;
        builder.app_config.title = Some(title);
        builder
    }

    /// Sets the amount of ticks to be generated each second. Default is 60.
    pub fn with_tick_rate(self, tick_rate: u64) -> (r: HeartBuilder)
        requires
            tick_rate > 0,
        ensures
            r.app_config == self.app_config,
            r.executor_config.tick_duration == executor::NANOS_PER_SECOND / tick_rate,
    {
        let mut builder = self;
        builder.executor_config.tick_duration = executor::calculate_tick_duration(tick_rate);
        builder
    }

    /// Consumes the builder and returns what the event loop starts from.
    pub fn run(self) -> (r: Heart)
        ensures
            r.app_config == self.app_config,
            r.executor.config() == self.executor_config,
            r.executor.clock().collected == 0,
            r.keyboard@ == Seq::new(111, |i: int| false),
            r.mouse.buttons@ == seq![false, false, false],
            r.mouse.x == mouse::state::NO_POSITION,
            r.mouse.y == mouse::state::NO_POSITION,
    {
        Heart {
            app_config: self.app_config,
            executor: executor::Executor::new(self.executor_config),
            keyboard: keyboard::state::init(),
            mouse: mouse::state::init(),
        }
    }
}

} // verus!
