use mobile_ai_orchestrator::sensor::{SensorAccuracy, SensorBuffer, SensorReading, SensorType};
use mobile_ai_orchestrator::snn::{LIFNeuron, SpikingNetwork};

#[test]
fn test_sensor_dimensions() {
    assert_eq!(SensorType::Accelerometer.dimensions(), 3);
    assert_eq!(SensorType::Light.dimensions(), 1);
    assert_eq!(SensorType::Touch.dimensions(), 2);
}

#[test]
fn test_reading_to_features() {
    let reading = SensorReading::new(SensorType::Accelerometer, vec![0.0f32, -9.8, 0.0]);
    let scale = reading.sensor_type.scale() as f32;
    let features: Vec<f32> = reading.values.iter().map(|v| v / scale).collect();
    assert_eq!(features.len(), 3);
    assert!((features[1] - (-0.49)).abs() < 0.01);
}

#[test]
fn test_buffer() {
    let mut buffer = SensorBuffer::new(3);
    buffer.push(SensorReading::new(SensorType::Light, vec![100.0f32]));
    buffer.push(SensorReading::new(SensorType::Light, vec![200.0]));
    buffer.push(SensorReading::new(SensorType::Light, vec![300.0]));
    buffer.push(SensorReading::new(SensorType::Light, vec![400.0]));

    assert_eq!(buffer.len(), 3);
    assert_eq!(buffer.readings()[0].values[0], 200.0);
}

#[test]
fn test_spiking_network_creation() {
    let snn = SpikingNetwork::new(10, 20, 3);
    assert_eq!(snn.n_input, 10);
    assert_eq!(snn.n_hidden, 20);
    assert_eq!(snn.n_output, 3);
}

#[test]
fn test_spiking_network_step() {
    let snn = SpikingNetwork::new(10, 20, 3);
    let input = vec![true, false, true, false, false, false, false, false, false, false];
    assert_eq!(snn.step(input.len()), Ok(3));
}

#[test]
fn test_lif_neuron_refractory() {
    let mut neuron = LIFNeuron::new();
    assert!(neuron.update());
    neuron.fire();
    let spiked = neuron.update();
    assert!(!spiked);
}

#[test]
fn sensor_tables() {
    let all = [
        (SensorType::Accelerometer, 3, "accelerometer", 20),
        (SensorType::Gyroscope, 3, "gyroscope", 10),
        (SensorType::Magnetometer, 3, "magnetometer", 100),
        (SensorType::Light, 1, "light", 10000),
        (SensorType::Proximity, 1, "proximity", 10),
        (SensorType::Barometer, 1, "barometer", 200),
        (SensorType::Gps, 3, "gps", 180),
        (SensorType::Audio, 1, "audio", 1),
        (SensorType::Touch, 2, "touch", 1),
        (SensorType::Custom(7), 1, "custom", 1),
    ];
    for (t, dims, name, scale) in all {
        assert_eq!(t.dimensions(), dims);
        assert_eq!(t.name(), name);
        assert_eq!(t.scale(), scale);
    }
    assert_eq!(SensorAccuracy::default(), SensorAccuracy::Medium);
}

#[test]
fn readings_carry_what_they_were_given() {
    let r = SensorReading::with_timestamp(SensorType::Gps, vec![1i32, 2, 3], 99);
    assert_eq!(r.timestamp_ms, 99);
    assert_eq!(r.accuracy, SensorAccuracy::Medium);
    let r = r.with_accuracy(SensorAccuracy::High);
    assert_eq!(r.accuracy, SensorAccuracy::High);
    assert_eq!(r.values, vec![1, 2, 3]);
    assert_eq!(r.sensor_type, SensorType::Gps);
    assert_eq!(r.timestamp_ms, 99);
    let now = SensorReading::new(SensorType::Audio, vec![0u8]);
    assert!(now.timestamp_ms > 0);
}

#[test]
fn buffer_drops_the_oldest_reading() {
    let mut buffer = SensorBuffer::new(2);
    assert!(buffer.is_empty());
    for (i, t) in [SensorType::Light, SensorType::Audio, SensorType::Light, SensorType::Touch]
        .into_iter()
        .enumerate()
    {
        buffer.push(SensorReading::with_timestamp(t, vec![i], i as u64));
    }
    assert_eq!(buffer.len(), 2);
    let stamps: Vec<u64> = buffer.readings().iter().map(|r| r.timestamp_ms).collect();
    assert_eq!(stamps, vec![2, 3]);
    let lights = buffer.readings_of_type(SensorType::Light);
    assert_eq!(lights.len(), 1);
    assert_eq!(lights[0].values, vec![2]);
    assert!(buffer.readings_of_type(SensorType::Gps).is_empty());
    buffer.clear();
    assert!(buffer.is_empty());
    assert_eq!(buffer.len(), 0);
}

#[test]
fn readings_of_a_type_keep_their_order() {
    let mut buffer = SensorBuffer::new(10);
    for i in 0..6u64 {
        let t = if i % 2 == 0 { SensorType::Custom(1) } else { SensorType::Custom(2) };
        buffer.push(SensorReading::with_timestamp(t, vec![i], i));
    }
    let even: Vec<u64> =
        buffer.readings_of_type(SensorType::Custom(1)).iter().map(|r| r.timestamp_ms).collect();
    assert_eq!(even, vec![0, 2, 4]);
}

#[test]
fn buffer_without_room_holds_nothing() {
    let mut buffer = SensorBuffer::new(0);
    buffer.push(SensorReading::with_timestamp(SensorType::Light, vec![1u8], 1));
    assert!(buffer.is_empty());
}

#[test]
fn neuron_rests_for_five_steps_after_a_spike() {
    let mut neuron = LIFNeuron::new();
    neuron.fire();
    let gates: Vec<bool> = (0..7).map(|_| neuron.update()).collect();
    assert_eq!(gates, vec![false, false, false, false, false, true, true]);
    neuron.fire();
    neuron.reset();
    assert!(neuron.update());
}

#[test]
fn spiking_plan_draws_hidden_weights_first() {
    let snn = SpikingNetwork::new(2, 2, 1);
    let plan = snn.initialize_weights();
    assert_eq!(plan.weights_ih, vec![vec![14383, 13057], vec![10890, 28778]]);
    assert_eq!(plan.weights_ho, vec![vec![17854, 14394]]);
    assert!(SpikingNetwork::is_connected(6553));
    assert!(!SpikingNetwork::is_connected(6554));
    assert!(snn.step(3).is_err());
}
