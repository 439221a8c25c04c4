use monitoring_system::hals::{AdcInit, AdcRead, ADCWrapper, ADC_ATTEN_DB_11, ADC_CHANNEL_4, ADC_WIDTH_BIT_12};

#[test]
fn default_adc_is_unit_one_channel_four() {
    let a = ADCWrapper::default();
    assert_eq!(a, ADCWrapper::new(1, ADC_WIDTH_BIT_12, ADC_CHANNEL_4, ADC_ATTEN_DB_11));
    assert_eq!(a.read_request(), AdcRead::Adc1 { chan: 4 });
}

#[test]
fn adc_initialization_by_unit() {
    assert_eq!(ADCWrapper::initialization(1, 3, 4, 3), AdcInit::Adc1 { nbits: 3, chan: 4, atten: 3 });
    assert_eq!(ADCWrapper::initialization(2, 3, 5, 1), AdcInit::Adc2 { chan: 5, atten: 1 });
    assert_eq!(ADCWrapper::initialization(3, 3, 5, 1), AdcInit::Nothing);
}

#[test]
fn adc_reads_from_its_unit() {
    assert_eq!(ADCWrapper::new(2, 1, 7, 0).read_request(), AdcRead::Adc2 { chan: 7, nbits: 1 });
    assert_eq!(ADCWrapper::new(0, 1, 7, 0).read_request(), AdcRead::Adc2 { chan: 7, nbits: 1 });
    assert_eq!(ADCWrapper::new(1, 1, 7, 0).read_request(), AdcRead::Adc1 { chan: 7 });
}
