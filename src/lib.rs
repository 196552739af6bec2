pub mod arith;
pub mod bar;
pub mod commodity_channel_index;
pub mod errors;
pub mod simple_moving_average;
pub mod trend_magic;
pub mod true_range;
pub mod volume_weighted_average_price;

pub use bar::Bar;
pub use errors::TaError;
pub use trend_magic::TrendMagic;
pub use volume_weighted_average_price::{
    VolumeWeightedAveragePrice, VolumeWeightedAveragePriceBands, VolumeWeightedAveragePriceSource,
};
