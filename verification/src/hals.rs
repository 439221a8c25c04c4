//! The analog-to-digital converter of a sensor node: which unit it is on,
//! how the unit is set up, and how a sample is read.
use vstd::prelude::*;

verus! {

/// ESP-IDF's `ADC_WIDTH_BIT_12`: samples of 12 bits.
pub const ADC_WIDTH_BIT_12: i32 = 3;

/// ESP-IDF's `ADC_CHANNEL_4`.
pub const ADC_CHANNEL_4: i32 = 4;

/// ESP-IDF's `ADC_ATTEN_DB_11`: the widest input range.
pub const ADC_ATTEN_DB_11: i32 = 3;

/// An ADC channel: unit `adc_num` (1 or 2), channel, and sample width.
#[derive(Debug, Clone, Copy, PartialEq, Eq)]
pub struct ADCWrapper {
    adc_num: i32,
    adc_chan: i32,
    adc_nbits: i32,
}

/// How a unit is set up before its first sample.
#[derive(Debug, Clone, Copy, PartialEq, Eq)]
pub enum AdcInit {
    /// Unit 1: the channel's attenuation, then the unit's sample width.
    Adc1 { nbits: i32, chan: i32, atten: i32 },
    /// Unit 2: the channel's attenuation (the width is given with each read).
    Adc2 { chan: i32, atten: i32 },
    /// No unit with that number: nothing to set up.
    Nothing,
}

/// How one sample is read.
#[derive(Debug, Clone, Copy, PartialEq, Eq)]
pub enum AdcRead {
    /// A raw read of a unit-1 channel.
    Adc1 { chan: i32 },
    /// A raw read of a unit-2 channel at the given width.
    Adc2 { chan: i32, nbits: i32 },
}

impl ADCWrapper {
    /// The channel `adc_chan` of unit `adc_num`, sampled at width `adc_nbits`.
    pub fn new(adc_num: i32, adc_nbits: i32, adc_chan: i32, adc_atten: i32) -> (r: Self)
        ensures
            r.adc_num() == adc_num,
            r.adc_chan() == adc_chan,
            r.adc_nbits() == adc_nbits,
    {
        ADCWrapper { adc_num, adc_chan, adc_nbits }
    }

    /// The unit's number.
    pub closed spec fn adc_num(&self) -> i32 {
        self.adc_num
    }

    /// The channel.
    pub closed spec fn adc_chan(&self) -> i32 {
        self.adc_chan
    }

    /// The sample width.
    pub closed spec fn adc_nbits(&self) -> i32 {
        self.adc_nbits
    }

    /// The set-up that `new` calls for: unit 1 gets attenuation and width,
    /// unit 2 attenuation, any other number nothing.
    pub fn initialization(adc_num: i32, adc_nbits: i32, adc_chan: i32, adc_atten: i32) -> (r: AdcInit)
        ensures
            adc_num == 1 ==> r == (AdcInit::Adc1 { nbits: adc_nbits, chan: adc_chan, atten: adc_atten }),
            adc_num == 2 ==> r == (AdcInit::Adc2 { chan: adc_chan, atten: adc_atten }),
            adc_num != 1 && adc_num != 2 ==> r == AdcInit::Nothing,
    {
        if adc_num == 1 {
            AdcInit::Adc1 { nbits: adc_nbits, chan: adc_chan, atten: adc_atten }
        } else if adc_num == 2 {
            AdcInit::Adc2 { chan: adc_chan, atten: adc_atten }
        } else {
            AdcInit::Nothing
        }
    }

    /// How `get_value` reads a sample: from unit 1 when the number is 1,
    /// else from unit 2 at the channel's width.
    pub fn read_request(&self) -> (r: AdcRead)
        ensures
            self.adc_num() == 1 ==> r == (AdcRead::Adc1 { chan: self.adc_chan() }),
            self.adc_num() != 1 ==> r == (AdcRead::Adc2 { chan: self.adc_chan(), nbits: self.adc_nbits() }),
    {
        if self.adc_num == 1 {
            AdcRead::Adc1 { chan: self.adc_chan }
        } else {
            AdcRead::Adc2 { chan: self.adc_chan, nbits: self.adc_nbits }
        }
    }
}

impl Default for ADCWrapper {
    /// Channel 4 of unit 1, at 12 bits.
    fn default() -> (r: Self)
        ensures
            r.adc_num() == 1,
            r.adc_chan() == ADC_CHANNEL_4,
            r.adc_nbits() == ADC_WIDTH_BIT_12,
    {
        ADCWrapper::new(1, ADC_WIDTH_BIT_12, ADC_CHANNEL_4, ADC_ATTEN_DB_11)
    }
}

} // verus!
