//! Sensor input abstraction: sensor types, readings and a bounded buffer of
//! readings.
//!
//! Readings carry their values in any representation `V`; scaling values to
//! features divides them by the scale of their sensor type, which is the work
//! of a numeric backend.

use vstd::prelude::*;

verus! {

/// Sensor types supported by the orchestrator.
#[derive(Clone, Copy, Debug, PartialEq, Eq, Structural, Hash)]
pub enum SensorType {
    /// 3-axis accelerometer (x, y, z in m/s^2).
    Accelerometer,
    /// 3-axis gyroscope (x, y, z in rad/s).
    Gyroscope,
    /// 3-axis magnetometer (x, y, z in uT).
    Magnetometer,
    /// Ambient light sensor (lux).
    Light,
    /// Proximity sensor (cm or binary 0/1).
    Proximity,
    /// Barometer/altimeter (hPa).
    Barometer,
    /// GPS location (lat, lon, accuracy in m).
    Gps,
    /// Audio amplitude or feature.
    Audio,
    /// Touch coordinates (x, y normalised to 0-1).
    Touch,
    /// Custom, user-defined sensor.
    Custom(u8),
}

impl SensorType {
    /// Expected number of values for this sensor type.
    pub open spec fn spec_dimensions(self) -> usize {
        match self {
            SensorType::Accelerometer => 3,
            SensorType::Gyroscope => 3,
            SensorType::Magnetometer => 3,
            SensorType::Light => 1,
            SensorType::Proximity => 1,
            SensorType::Barometer => 1,
            SensorType::Gps => 3,
            SensorType::Audio => 1,
            SensorType::Touch => 2,
            SensorType::Custom(_) => 1,
        }
    }

    /// Human-readable name of this sensor type.
    pub open spec fn spec_name(self) -> Seq<char> {
        match self {
            SensorType::Accelerometer => "accelerometer"@,
            SensorType::Gyroscope => "gyroscope"@,
            SensorType::Magnetometer => "magnetometer"@,
            SensorType::Light => "light"@,
            SensorType::Proximity => "proximity"@,
            SensorType::Barometer => "barometer"@,
            SensorType::Gps => "gps"@,
            SensorType::Audio => "audio"@,
            SensorType::Touch => "touch"@,
            SensorType::Custom(_) => "custom"@,
        }
    }

    /// The value by which readings of this sensor type are divided to get
    /// features.
    pub open spec fn spec_scale(self) -> u32 {
        match self {
            SensorType::Accelerometer => 20,
            SensorType::Gyroscope => 10,
            SensorType::Magnetometer => 100,
            SensorType::Light => 10000,
            SensorType::Proximity => 10,
            SensorType::Barometer => 200,
            SensorType::Gps => 180,
            SensorType::Audio => 1,
            SensorType::Touch => 1,
            SensorType::Custom(_) => 1,
        }
    }

    /// Expected number of values for this sensor type.
    pub fn dimensions(&self) -> (n: usize)
        ensures
            n == self.spec_dimensions(),
    {
        match self {
            SensorType::Accelerometer => 3,
            SensorType::Gyroscope => 3,
            SensorType::Magnetometer => 3,
            SensorType::Light => 1,
            SensorType::Proximity => 1,
            SensorType::Barometer => 1,
            SensorType::Gps => 3,
            SensorType::Audio => 1,
            SensorType::Touch => 2,
            SensorType::Custom(_) => 1,
        }
    }

    /// Human-readable name.
    pub fn name(&self) -> (s: &'static str)
        ensures
            s@ == self.spec_name(),
    {
        match self {
            SensorType::Accelerometer => "accelerometer",
            SensorType::Gyroscope => "gyroscope",
            SensorType::Magnetometer => "magnetometer",
            SensorType::Light => "light",
            SensorType::Proximity => "proximity",
            SensorType::Barometer => "barometer",
            SensorType::Gps => "gps",
            SensorType::Audio => "audio",
            SensorType::Touch => "touch",
            SensorType::Custom(_) => "custom",
        }
    }

    /// The value by which readings of this sensor type are divided to get
    /// features: accelerations by 20 m/s^2, rotations by 10 rad/s, magnetic
    /// fields by 100 uT, light by 10000 lux, proximity by 10 cm, pressure by
    /// 200 hPa, positions by 180 degrees; the others are taken as they are.
    pub fn scale(&self) -> (n: u32)
        ensures
            n == self.spec_scale(),
            n > 0,
    {
        match self {
            SensorType::Accelerometer => 20,
            SensorType::Gyroscope => 10,
            SensorType::Magnetometer => 100,
            SensorType::Light => 10000,
            SensorType::Proximity => 10,
            SensorType::Barometer => 200,
            SensorType::Gps => 180,
            SensorType::Audio => 1,
            SensorType::Touch => 1,
            SensorType::Custom(_) => 1,
        }
    }
}

/// Accuracy of a sensor reading.
#[derive(Clone, Copy, Debug, PartialEq, Eq, Structural)]
pub enum SensorAccuracy {
    /// Sensor data unreliable (for example uncalibrated).
    Unreliable,
    /// Low accuracy.
    Low,
    /// Medium accuracy.
    Medium,
    /// High accuracy (calibrated).
    High,
}

impl Default for SensorAccuracy {
    fn default() -> (a: Self)
        ensures
            a == SensorAccuracy::Medium,
    {
        SensorAccuracy::Medium
    }
}

/// Trusted: reads the system clock with `std::time::SystemTime::now` and
/// returns the whole milliseconds since the Unix epoch (zero if the clock is
/// set before it). Nothing is claimed about the value.
#[verifier::external_body]
pub(crate) fn current_timestamp_ms() -> (ms: u64) {
    std::time::SystemTime::now().duration_since(std::time::UNIX_EPOCH).map(
        |d| d.as_millis() as u64,
    ).unwrap_or(0)
}

/// A single sensor reading.
#[derive(Debug)]
pub struct SensorReading<V> {
    /// Type of sensor.
    pub sensor_type: SensorType,
    /// Timestamp in milliseconds since the epoch.
    pub timestamp_ms: u64,
    /// Raw sensor values.
    pub values: Vec<V>,
    /// Accuracy of the reading.
    pub accuracy: SensorAccuracy,
}

impl<V> SensorReading<V> {
    /// Creates a reading of medium accuracy, stamped with the current time.
    pub fn new(sensor_type: SensorType, values: Vec<V>) -> (r: Self)
        ensures
            r.sensor_type == sensor_type,
            r.values == values,
            r.accuracy == SensorAccuracy::Medium,
    {
        SensorReading {
            sensor_type,
            timestamp_ms: current_timestamp_ms(),
            values,
            accuracy: SensorAccuracy::Medium,
        }
    }

    /// Creates a reading of medium accuracy with an explicit timestamp.
    pub fn with_timestamp(sensor_type: SensorType, values: Vec<V>, timestamp_ms: u64) -> (r: Self)
        ensures
            r == (SensorReading {
                sensor_type,
                timestamp_ms,
                values,
                accuracy: SensorAccuracy::Medium,
            }),
    {
        SensorReading { sensor_type, timestamp_ms, values, accuracy: SensorAccuracy::Medium }
    }

    /// Sets the accuracy level.
    pub fn with_accuracy(self, accuracy: SensorAccuracy) -> (r: Self)
        ensures
            r == (SensorReading { accuracy, ..self }),
    {
        SensorReading {
            sensor_type: self.sensor_type,
            timestamp_ms: self.timestamp_ms,
            values: self.values,
            accuracy,
        }
    }
}

/// The readings of `readings` that come from a sensor of type `t`, in order.
pub open spec fn of_type<V>(readings: Seq<SensorReading<V>>, t: SensorType) -> Seq<
    SensorReading<V>,
>
    decreases readings.len(),
{
    if readings.len() == 0 {
        Seq::empty()
    } else if readings.last().sensor_type == t {
        of_type(readings.drop_last(), t).push(readings.last())
    } else {
        of_type(readings.drop_last(), t)
    }
}

/// The readings of a buffer after `reading` was pushed: a full buffer drops
/// its oldest reading first; a buffer without room holds nothing.
pub open spec fn pushed<V>(
    readings: Seq<SensorReading<V>>,
    max_size: usize,
    reading: SensorReading<V>,
) -> Seq<SensorReading<V>> {
    if max_size == 0 {
        readings
    } else if readings.len() >= max_size {
        readings.drop_first().push(reading)
    } else {
        readings.push(reading)
    }
}

/// Buffer for collecting sensor readings over time.
#[derive(Debug)]
pub struct SensorBuffer<V> {
    readings: Vec<SensorReading<V>>,
    max_size: usize,
}

impl<V> View for SensorBuffer<V> {
    type V = Seq<SensorReading<V>>;

    /// The readings, oldest first.
    closed spec fn view(&self) -> Seq<SensorReading<V>> {
        self.readings@
    }
}

impl<V> SensorBuffer<V> {
    /// The largest number of readings that the buffer keeps.
    pub closed spec fn capacity(&self) -> usize {
        self.max_size
    }

    /// The buffer holds no more readings than its capacity.
    pub open spec fn wf(&self) -> bool {
        self@.len() <= self.capacity()
    }

    /// Creates an empty buffer with a maximum size.
    pub fn new(max_size: usize) -> (b: Self)
        ensures
            b@.len() == 0,
            b.capacity() == max_size,
            b.wf(),
    {
        SensorBuffer { readings: Vec::new(), max_size }
    }

    /// Adds a reading; a full buffer drops its oldest reading.
    pub fn push(&mut self, reading: SensorReading<V>)
        requires
            old(self).wf(),
        ensures
            final(self)@ == pushed(old(self)@, old(self).capacity(), reading),
            final(self).capacity() == old(self).capacity(),
            final(self).wf(),
    {
        if self.max_size == 0 {
            return;
        }
        if self.readings.len() >= self.max_size {
            let _oldest = self.readings.remove(0);
            proof {
                assert(self.readings@ =~= old(self).readings@.drop_first());
            }
        }
        self.readings.push(reading);
    }

    /// All readings, oldest first.
    pub fn readings(&self) -> (r: &Vec<SensorReading<V>>)
        ensures
            r@ == self@,
    {
        &self.readings
    }

    /// The readings of a specific sensor type, oldest first.
    pub fn readings_of_type(&self, sensor_type: SensorType) -> (r: Vec<&SensorReading<V>>)
        ensures
            r@.map_values(|x: &SensorReading<V>| *x) == of_type(self@, sensor_type),
    {
        let mut r: Vec<&SensorReading<V>> = Vec::new();
        let mut i: usize = 0;
        while i < self.readings.len()
            invariant
                i <= self.readings@.len(),
                r@.map_values(|x: &SensorReading<V>| *x) == of_type(
                    self.readings@.take(i as int),
                    sensor_type,
                ),
            decreases self.readings.len() - i,
        {
            let ghost before = r@.map_values(|x: &SensorReading<V>| *x);
            proof {
                assert(self.readings@.take(i + 1).drop_last() =~= self.readings@.take(i as int));
            }
            if self.readings[i].sensor_type == sensor_type {
                r.push(&self.readings[i]);
                proof {
                    assert(r@.map_values(|x: &SensorReading<V>| *x) =~= before.push(
                        self.readings@[i as int],
                    ));
                }
            }
            i += 1;
        }
        proof {
            assert(self.readings@.take(self.readings@.len() as int) =~= self.readings@);
        }
        r
    }

    /// Removes every reading.
    pub fn clear(&mut self)
        ensures
            final(self)@.len() == 0,
            final(self).capacity() == old(self).capacity(),
            final(self).wf(),
    {
        self.readings = Vec::new();
    }

    /// Number of readings in the buffer.
    pub fn len(&self) -> (n: usize)
        ensures
            n == self@.len(),
    {
        self.readings.len()
    }

    /// Whether the buffer holds no reading.
    pub fn is_empty(&self) -> (b: bool)
        ensures
            b == (self@.len() == 0),
    {
        self.readings.len() == 0
    }
}

} // verus!
