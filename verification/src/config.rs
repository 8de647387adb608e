//! The deployment-time configuration, and its startup validation.
//!
//! Configuration is loaded and decoded by the runtime around the library;
//! this module models what it must contain and checks the rules that make
//! a deployment usable. A configuration that fails `validate` is fatal at
//! startup: no supervisor and no indicator task may be built from it.

use vstd::prelude::*;

use crate::flicker::BRIGHT_SCALE;
use crate::secure_string::SecureString;
use crate::supervisor::WifiNetwork;

verus! {

/// Where the remote state service lives and how to authenticate to it.
#[derive(Clone)]
pub struct HomeAssistantConfig {
    /// Base URL of the service, without a trailing slash.
    pub base_url: String,
    /// The bearer token presented with every request.
    pub access_token: SecureString,
}

/// Configuration of one flickering indicator: the remote entity whose
/// state drives it, the zone name that counts as present, the output pin
/// it drives, and its brightness bounds in units of `1/BRIGHT_SCALE`.
#[derive(Clone)]
pub struct FlickeringGpsLed {
    /// Identifier of the remote entity to poll.
    pub entity: String,
    /// The zone the entity must report to light the indicator.
    pub gps_zone: String,
    /// The output pin driving this indicator.
    pub gpio_pin: i32,
    /// Lowest brightness of the flicker curve.
    pub min_brightness: u64,
    /// Highest brightness of the flicker curve.
    pub max_brightness: u64,
}

/// Everything a deployment configuration can be rejected for. Each is
/// fatal at startup, reported before any task is spawned.
#[derive(Clone, Copy, PartialEq, Eq, Structural, Debug)]
pub enum ConfigError {
    /// The candidate network list is empty.
    NoNetworks,
    /// Two indicators are configured on the same output pin; the pin is
    /// named.
    DuplicateGpioPin(i32),
    /// An indicator's brightness bounds are unordered or beyond full
    /// scale; the indicator is named by its pin.
    BadBrightnessBounds(i32),
}

/// No two indicators share an output pin.
pub open spec fn pins_unique(leds: Seq<FlickeringGpsLed>) -> bool {
    forall|i: int, j: int|
        0 <= i < j < leds.len() ==> leds[i].gpio_pin != leds[j].gpio_pin
}

/// An indicator's brightness bounds are ordered and within scale.
pub open spec fn bounds_valid(led: FlickeringGpsLed) -> bool {
    led.min_brightness <= led.max_brightness <= BRIGHT_SCALE
}

/// The full deployment configuration: the ordered candidate network list,
/// the remote service, and zero or more indicators.
#[derive(Clone)]
pub struct Config {
    /// Candidate networks, in the order the supervisor cycles through.
    pub networks: Vec<WifiNetwork>,
    /// The remote state service.
    pub home_assistant_config: HomeAssistantConfig,
    /// The configured indicators.
    pub flickering_gps_leds: Vec<FlickeringGpsLed>,
}

impl Config {
    /// A usable deployment: at least one candidate network, no output pin
    /// claimed twice, and every indicator's brightness bounds valid.
    pub open spec fn valid(self) -> bool {
        &&& self.networks@.len() > 0
        &&& pins_unique(self.flickering_gps_leds@)
        &&& forall|i: int|
            0 <= i < self.flickering_gps_leds@.len() ==> bounds_valid(
                #[trigger] self.flickering_gps_leds@[i],
            )
    }

    /// Check the configuration, accepting exactly the usable deployments.
    /// An empty network list is reported as such; a duplicated pin and an
    /// indicator with bad brightness bounds are reported by pin.
    #[verifier::loop_isolation(false)]
    pub fn validate(&self) -> (r: Result<(), ConfigError>)
        ensures
            r is Ok <==> self.valid(),
            (r matches Err(e) && e is NoNetworks) <==> self.networks@.len() == 0,
            r matches Err(ConfigError::DuplicateGpioPin(p)) ==> exists|i: int, j: int|
                0 <= i < j < self.flickering_gps_leds@.len()
                    && self.flickering_gps_leds@[i].gpio_pin == p
                    && self.flickering_gps_leds@[j].gpio_pin == p,
            r matches Err(ConfigError::BadBrightnessBounds(p)) ==> exists|i: int|
                0 <= i < self.flickering_gps_leds@.len() && #[trigger] self.flickering_gps_leds@[i].gpio_pin
                    == p && !bounds_valid(self.flickering_gps_leds@[i]),
    {
        if self.networks.len() == 0 {
            return Err(ConfigError::NoNetworks);
        }
        let leds = &self.flickering_gps_leds;
        let n = leds.len();
        let mut k: usize = 0;
        while k < n
            invariant
                k <= n,
                n == leds@.len(),
                forall|i: int, j: int| 0 <= i < j < k ==> leds@[i].gpio_pin != leds@[j].gpio_pin,
                forall|i: int| 0 <= i < k ==> bounds_valid(#[trigger] leds@[i]),
            decreases n - k,
        {
            let led = &leds[k];
            if !(led.min_brightness <= led.max_brightness && led.max_brightness <= BRIGHT_SCALE) {
                return Err(ConfigError::BadBrightnessBounds(led.gpio_pin));
            }
            let mut e: usize = 0;
            while e < k
                invariant
                    e <= k < n,
                    n == leds@.len(),
                    forall|i: int| 0 <= i < e ==> leds@[i].gpio_pin != leds@[k as int].gpio_pin,
                decreases k - e,
            {
                if leds[e].gpio_pin == leds[k].gpio_pin {
                    return Err(ConfigError::DuplicateGpioPin(leds[k].gpio_pin));
                }
                e += 1;
            }
            k += 1;
        }
        Ok(())
    }
}

} // verus!
