//! Single-cycle wavetables, 1024 samples each, amplitude 32767. The sine is
//! sampled directly; the square, sawtooth and triangle tables are band-limited
//! Fourier sums, one table per octave band (band 0 keeps the most harmonics).
use vstd::prelude::*;

verus! {

/// Samples per table.
pub const TABLE_SIZE: usize = 1024;

/// A 64-bit phase is shifted right by this much to index a table.
pub const PHASE_INDEX_SHIFT: u32 = 54;

/// Number of band-limited tables per waveform.
pub const NUM_BANDS: usize = 10;

/// One cycle of `sin`, scaled to `i16`.
pub const SINE_LUT: [i16; 1024] = [
    0, 201, 402, 603, 804, 1005, 1206, 1407, 1608, 1809, 2009, 2210, 2410, 2611, 2811, 3012,
    3212, 3412, 3612, 3811, 4011, 4210, 4410, 4609, 4808, 5007, 5205, 5404, 5602, 5800, 5998, 6195,
    6393, 6590, 6786, 6983, 7179, 7375, 7571, 7767, 7962, 8157, 8351, 8545, 8739, 8933, 9126, 9319,
    9512, 9704, 9896, 10087, 10278, 10469, 10659, 10849, 11039, 11228, 11417, 11605, 11793, 11980, 12167, 12353,
    12539, 12725, 12910, 13094, 13279, 13462, 13645, 13828, 14010, 14191, 14372, 14553, 14732, 14912, 15090, 15269,
    15446, 15623, 15800, 15976, 16151, 16325, 16499, 16673, 16846, 17018, 17189, 17360, 17530, 17700, 17869, 18037,
    18204, 18371, 18537, 18703, 18868, 19032, 19195, 19357, 19519, 19680, 19841, 20000, 20159, 20317, 20475, 20631,
    20787, 20942, 21096, 21250, 21403, 21554, 21705, 21856, 22005, 22154, 22301, 22448, 22594, 22739, 22884, 23027,
    23170, 23311, 23452, 23592, 23731, 23870, 24007, 24143, 24279, 24413, 24547, 24680, 24811, 24942, 25072, 25201,
    25329, 25456, 25582, 25708, 25832, 25955, 26077, 26198, 26319, 26438, 26556, 26674, 26790, 26905, 27019, 27133,
    27245, 27356, 27466, 27575, 27683, 27790, 27896, 28001, 28105, 28208, 28310, 28411, 28510, 28609, 28706, 28803,
    28898, 28992, 29085, 29177, 29268, 29358, 29447, 29534, 29621, 29706, 29791, 29874, 29956, 30037, 30117, 30195,
    30273, 30349, 30424, 30498, 30571, 30643, 30714, 30783, 30852, 30919, 30985, 31050, 31113, 31176, 31237, 31297,
    31356, 31414, 31470, 31526, 31580, 31633, 31685, 31736, 31785, 31833, 31880, 31926, 31971, 32014, 32057, 32098,
    32137, 32176, 32213, 32250, 32285, 32318, 32351, 32382, 32412, 32441, 32469, 32495, 32521, 32545, 32567, 32589,
    32609, 32628, 32646, 32663, 32678, 32692, 32705, 32717, 32728, 32737, 32745, 32752, 32757, 32761, 32765, 32766,
    32767, 32766, 32765, 32761, 32757, 32752, 32745, 32737, 32728, 32717, 32705, 32692, 32678, 32663, 32646, 32628,
    32609, 32589, 32567, 32545, 32521, 32495, 32469, 32441, 32412, 32382, 32351, 32318, 32285, 32250, 32213, 32176,
    32137, 32098, 32057, 32014, 31971, 31926, 31880, 31833, 31785, 31736, 31685, 31633, 31580, 31526, 31470, 31414,
    31356, 31297, 31237, 31176, 31113, 31050, 30985, 30919, 30852, 30783, 30714, 30643, 30571, 30498, 30424, 30349,
    30273, 30195, 30117, 30037, 29956, 29874, 29791, 29706, 29621, 29534, 29447, 29358, 29268, 29177, 29085, 28992,
    28898, 28803, 28706, 28609, 28510, 28411, 28310, 28208, 28105, 28001, 27896, 27790, 27683, 27575, 27466, 27356,
    27245, 27133, 27019, 26905, 26790, 26674, 26556, 26438, 26319, 26198, 26077, 25955, 25832, 25708, 25582, 25456,
    25329, 25201, 25072, 24942, 24811, 24680, 24547, 24413, 24279, 24143, 24007, 23870, 23731, 23592, 23452, 23311,
    23170, 23027, 22884, 22739, 22594, 22448, 22301, 22154, 22005, 21856, 21705, 21554, 21403, 21250, 21096, 20942,
    20787, 20631, 20475, 20317, 20159, 20000, 19841, 19680, 19519, 19357, 19195, 19032, 18868, 18703, 18537, 18371,
    18204, 18037, 17869, 17700, 17530, 17360, 17189, 17018, 16846, 16673, 16499, 16325, 16151, 15976, 15800, 15623,
    15446, 15269, 15090, 14912, 14732, 14553, 14372, 14191, 14010, 13828, 13645, 13462, 13279, 13094, 12910, 12725,
    12539, 12353, 12167, 11980, 11793, 11605, 11417, 11228, 11039, 10849, 10659, 10469, 10278, 10087, 9896, 9704,
    9512, 9319, 9126, 8933, 8739, 8545, 8351, 8157, 7962, 7767, 7571, 7375, 7179, 6983, 6786, 6590,
    6393, 6195, 5998, 5800, 5602, 5404, 5205, 5007, 4808, 4609, 4410, 4210, 4011, 3811, 3612, 3412,
    3212, 3012, 2811, 2611, 2410, 2210, 2009, 1809, 1608, 1407, 1206, 1005, 804, 603, 402, 201,
    0, -201, -402, -603, -804, -1005, -1206, -1407, -1608, -1809, -2009, -2210, -2410, -2611, -2811, -3012,
    -3212, -3412, -3612, -3811, -4011, -4210, -4410, -4609, -4808, -5007, -5205, -5404, -5602, -5800, -5998, -6195,
    -6393, -6590, -6786, -6983, -7179, -7375, -7571, -7767, -7962, -8157, -8351, -8545, -8739, -8933, -9126, -9319,
    -9512, -9704, -9896, -10087, -10278, -10469, -10659, -10849, -11039, -11228, -11417, -11605, -11793, -11980, -12167, -12353,
    -12539, -12725, -12910, -13094, -13279, -13462, -13645, -13828, -14010, -14191, -14372, -14553, -14732, -14912, -15090, -15269,
    -15446, -15623, -15800, -15976, -16151, -16325, -16499, -16673, -16846, -17018, -17189, -17360, -17530, -17700, -17869, -18037,
    -18204, -18371, -18537, -18703, -18868, -19032, -19195, -19357, -19519, -19680, -19841, -20000, -20159, -20317, -20475, -20631,
    -20787, -20942, -21096, -21250, -21403, -21554, -21705, -21856, -22005, -22154, -22301, -22448, -22594, -22739, -22884, -23027,
    -23170, -23311, -23452, -23592, -23731, -23870, -24007, -24143, -24279, -24413, -24547, -24680, -24811, -24942, -25072, -25201,
    -25329, -25456, -25582, -25708, -25832, -25955, -26077, -26198, -26319, -26438, -26556, -26674, -26790, -26905, -27019, -27133,
    -27245, -27356, -27466, -27575, -27683, -27790, -27896, -28001, -28105, -28208, -28310, -28411, -28510, -28609, -28706, -28803,
    -28898, -28992, -29085, -29177, -29268, -29358, -29447, -29534, -29621, -29706, -29791, -29874, -29956, -30037, -30117, -30195,
    -30273, -30349, -30424, -30498, -30571, -30643, -30714, -30783, -30852, -30919, -30985, -31050, -31113, -31176, -31237, -31297,
    -31356, -31414, -31470, -31526, -31580, -31633, -31685, -31736, -31785, -31833, -31880, -31926, -31971, -32014, -32057, -32098,
    -32137, -32176, -32213, -32250, -32285, -32318, -32351, -32382, -32412, -32441, -32469, -32495, -32521, -32545, -32567, -32589,
    -32609, -32628, -32646, -32663, -32678, -32692, -32705, -32717, -32728, -32737, -32745, -32752, -32757, -32761, -32765, -32766,
    -32767, -32766, -32765, -32761, -32757, -32752, -32745, -32737, -32728, -32717, -32705, -32692, -32678, -32663, -32646, -32628,
    -32609, -32589, -32567, -32545, -32521, -32495, -32469, -32441, -32412, -32382, -32351, -32318, -32285, -32250, -32213, -32176,
    -32137, -32098, -32057, -32014, -31971, -31926, -31880, -31833, -31785, -31736, -31685, -31633, -31580, -31526, -31470, -31414,
    -31356, -31297, -31237, -31176, -31113, -31050, -30985, -30919, -30852, -30783, -30714, -30643, -30571, -30498, -30424, -30349,
    -30273, -30195, -30117, -30037, -29956, -29874, -29791, -29706, -29621, -29534, -29447, -29358, -29268, -29177, -29085, -28992,
    -28898, -28803, -28706, -28609, -28510, -28411, -28310, -28208, -28105, -28001, -27896, -27790, -27683, -27575, -27466, -27356,
    -27245, -27133, -27019, -26905, -26790, -26674, -26556, -26438, -26319, -26198, -26077, -25955, -25832, -25708, -25582, -25456,
    -25329, -25201, -25072, -24942, -24811, -24680, -24547, -24413, -24279, -24143, -24007, -23870, -23731, -23592, -23452, -23311,
    -23170, -23027, -22884, -22739, -22594, -22448, -22301, -22154, -22005, -21856, -21705, -21554, -21403, -21250, -21096, -20942,
    -20787, -20631, -20475, -20317, -20159, -20000, -19841, -19680, -19519, -19357, -19195, -19032, -18868, -18703, -18537, -18371,
    -18204, -18037, -17869, -17700, -17530, -17360, -17189, -17018, -16846, -16673, -16499, -16325, -16151, -15976, -15800, -15623,
    -15446, -15269, -15090, -14912, -14732, -14553, -14372, -14191, -14010, -13828, -13645, -13462, -13279, -13094, -12910, -12725,
    -12539, -12353, -12167, -11980, -11793, -11605, -11417, -11228, -11039, -10849, -10659, -10469, -10278, -10087, -9896, -9704,
    -9512, -9319, -9126, -8933, -8739, -8545, -8351, -8157, -7962, -7767, -7571, -7375, -7179, -6983, -6786, -6590,
    -6393, -6195, -5998, -5800, -5602, -5404, -5205, -5007, -4808, -4609, -4410, -4210, -4011, -3811, -3612, -3412,
    -3212, -3012, -2811, -2611, -2410, -2210, -2009, -1809, -1608, -1407, -1206, -1005, -804, -603, -402, -201,
];

/// Band 0 of the band-limited square wave.
#[verifier::opaque]
pub const SQUARE_BAND_0: [i16; 1024] = [
    0, 32767, 25092, 29632, 26401, 28910, 26859, 28594, 27091, 28417, 27230, 28304, 27324, 28226, 27390, 28168,
    27440, 28124, 27479, 28090, 27510, 28061, 27536, 28038, 27557, 28019, 27575, 28002, 27591, 27988, 27604, 27975,
    27616, 27964, 27626, 27955, 27635, 27946, 27643, 27938, 27650, 27931, 27657, 27925, 27663, 27919, 27669, 27914,
    27674, 27909, 27678, 27905, 27682, 27901, 27686, 27897, 27690, 27893, 27693, 27890, 27697, 27887, 27700, 27884,
    27702, 27882, 27705, 27879, 27707, 27877, 27710, 27875, 27712, 27872, 27714, 27870, 27716, 27869, 27718, 27867,
    27719, 27865, 27721, 27864, 27723, 27862, 27724, 27861, 27725, 27859, 27727, 27858, 27728, 27857, 27729, 27855,
    27730, 27854, 27732, 27853, 27733, 27852, 27734, 27851, 27735, 27850, 27736, 27849, 27736, 27848, 27737, 27848,
    27738, 27847, 27739, 27846, 27740, 27845, 27740, 27844, 27741, 27844, 27742, 27843, 27743, 27842, 27743, 27842,
    27744, 27841, 27744, 27841, 27745, 27840, 27745, 27840, 27746, 27839, 27747, 27839, 27747, 27838, 27747, 27838,
    27748, 27837, 27748, 27837, 27749, 27836, 27749, 27836, 27750, 27835, 27750, 27835, 27750, 27835, 27751, 27834,
    27751, 27834, 27751, 27834, 27752, 27833, 27752, 27833, 27752, 27833, 27753, 27833, 27753, 27832, 27753, 27832,
    27753, 27832, 27754, 27831, 27754, 27831, 27754, 27831, 27754, 27831, 27755, 27831, 27755, 27830, 27755, 27830,
    27755, 27830, 27755, 27830, 27756, 27830, 27756, 27829, 27756, 27829, 27756, 27829, 27756, 27829, 27756, 27829,
    27757, 27829, 27757, 27829, 27757, 27828, 27757, 27828, 27757, 27828, 27757, 27828, 27757, 27828, 27757, 27828,
    27757, 27828, 27757, 27828, 27758, 27828, 27758, 27828, 27758, 27828, 27758, 27827, 27758, 27827, 27758, 27827,
    27758, 27827, 27758, 27827, 27758, 27827, 27758, 27827, 27758, 27827, 27758, 27827, 27758, 27827, 27758, 27827,
    27758, 27827, 27758, 27827, 27758, 27827, 27758, 27827, 27758, 27827, 27758, 27827, 27758, 27827, 27758, 27827,
    27758, 27827, 27758, 27827, 27758, 27827, 27758, 27828, 27758, 27828, 27758, 27828, 27758, 27828, 27757, 27828,
    27757, 27828, 27757, 27828, 27757, 27828, 27757, 27828, 27757, 27828, 27757, 27828, 27757, 27829, 27757, 27829,
    27757, 27829, 27756, 27829, 27756, 27829, 27756, 27829, 27756, 27829, 27756, 27830, 27756, 27830, 27755, 27830,
    27755, 27830, 27755, 27830, 27755, 27831, 27755, 27831, 27754, 27831, 27754, 27831, 27754, 27831, 27754, 27832,
    27753, 27832, 27753, 27832, 27753, 27833, 27753, 27833, 27752, 27833, 27752, 27833, 27752, 27834, 27751, 27834,
    27751, 27834, 27751, 27835, 27750, 27835, 27750, 27835, 27750, 27836, 27749, 27836, 27749, 27837, 27748, 27837,
    27748, 27838, 27747, 27838, 27747, 27839, 27747, 27839, 27746, 27840, 27745, 27840, 27745, 27841, 27744, 27841,
    27744, 27842, 27743, 27842, 27743, 27843, 27742, 27844, 27741, 27844, 27740, 27845, 27740, 27846, 27739, 27847,
    27738, 27848, 27737, 27848, 27736, 27849, 27736, 27850, 27735, 27851, 27734, 27852, 27733, 27853, 27732, 27854,
    27730, 27855, 27729, 27857, 27728, 27858, 27727, 27859, 27725, 27861, 27724, 27862, 27723, 27864, 27721, 27865,
    27719, 27867, 27718, 27869, 27716, 27870, 27714, 27872, 27712, 27875, 27710, 27877, 27707, 27879, 27705, 27882,
    27702, 27884, 27700, 27887, 27697, 27890, 27693, 27893, 27690, 27897, 27686, 27901, 27682, 27905, 27678, 27909,
    27674, 27914, 27669, 27919, 27663, 27925, 27657, 27931, 27650, 27938, 27643, 27946, 27635, 27955, 27626, 27964,
    27616, 27975, 27604, 27988, 27591, 28002, 27575, 28019, 27557, 28038, 27536, 28061, 27510, 28090, 27479, 28124,
    27440, 28168, 27390, 28226, 27324, 28304, 27230, 28417, 27091, 28594, 26859, 28910, 26401, 29632, 25092, 32767,
    0, -32767, -25092, -29632, -26401, -28910, -26859, -28594, -27091, -28417, -27230, -28304, -27324, -28226, -27390, -28168,
    -27440, -28124, -27479, -28090, -27510, -28061, -27536, -28038, -27557, -28019, -27575, -28002, -27591, -27988, -27604, -27975,
    -27616, -27964, -27626, -27955, -27635, -27946, -27643, -27938, -27650, -27931, -27657, -27925, -27663, -27919, -27669, -27914,
    -27674, -27909, -27678, -27905, -27682, -27901, -27686, -27897, -27690, -27893, -27693, -27890, -27697, -27887, -27700, -27884,
    -27702, -27882, -27705, -27879, -27707, -27877, -27710, -27875, -27712, -27872, -27714, -27870, -27716, -27869, -27718, -27867,
    -27719, -27865, -27721, -27864, -27723, -27862, -27724, -27861, -27725, -27859, -27727, -27858, -27728, -27857, -27729, -27855,
    -27730, -27854, -27732, -27853, -27733, -27852, -27734, -27851, -27735, -27850, -27736, -27849, -27736, -27848, -27737, -27848,
    -27738, -27847, -27739, -27846, -27740, -27845, -27740, -27844, -27741, -27844, -27742, -27843, -27743, -27842, -27743, -27842,
    -27744, -27841, -27744, -27841, -27745, -27840, -27745, -27840, -27746, -27839, -27747, -27839, -27747, -27838, -27747, -27838,
    -27748, -27837, -27748, -27837, -27749, -27836, -27749, -27836, -27750, -27835, -27750, -27835, -27750, -27835, -27751, -27834,
    -27751, -27834, -27751, -27834, -27752, -27833, -27752, -27833, -27752, -27833, -27753, -27833, -27753, -27832, -27753, -27832,
    -27753, -27832, -27754, -27831, -27754, -27831, -27754, -27831, -27754, -27831, -27755, -27831, -27755, -27830, -27755, -27830,
    -27755, -27830, -27755, -27830, -27756, -27830, -27756, -27829, -27756, -27829, -27756, -27829, -27756, -27829, -27756, -27829,
    -27757, -27829, -27757, -27829, -27757, -27828, -27757, -27828, -27757, -27828, -27757, -27828, -27757, -27828, -27757, -27828,
    -27757, -27828, -27757, -27828, -27758, -27828, -27758, -27828, -27758, -27828, -27758, -27827, -27758, -27827, -27758, -27827,
    -27758, -27827, -27758, -27827, -27758, -27827, -27758, -27827, -27758, -27827, -27758, -27827, -27758, -27827, -27758, -27827,
    -27758, -27827, -27758, -27827, -27758, -27827, -27758, -27827, -27758, -27827, -27758, -27827, -27758, -27827, -27758, -27827,
    -27758, -27827, -27758, -27827, -27758, -27827, -27758, -27828, -27758, -27828, -27758, -27828, -27758, -27828, -27757, -27828,
    -27757, -27828, -27757, -27828, -27757, -27828, -27757, -27828, -27757, -27828, -27757, -27828, -27757, -27829, -27757, -27829,
    -27757, -27829, -27756, -27829, -27756, -27829, -27756, -27829, -27756, -27829, -27756, -27830, -27756, -27830, -27755, -27830,
    -27755, -27830, -27755, -27830, -27755, -27831, -27755, -27831, -27754, -27831, -27754, -27831, -27754, -27831, -27754, -27832,
    -27753, -27832, -27753, -27832, -27753, -27833, -27753, -27833, -27752, -27833, -27752, -27833, -27752, -27834, -27751, -27834,
    -27751, -27834, -27751, -27835, -27750, -27835, -27750, -27835, -27750, -27836, -27749, -27836, -27749, -27837, -27748, -27837,
    -27748, -27838, -27747, -27838, -27747, -27839, -27747, -27839, -27746, -27840, -27745, -27840, -27745, -27841, -27744, -27841,
    -27744, -27842, -27743, -27842, -27743, -27843, -27742, -27844, -27741, -27844, -27740, -27845, -27740, -27846, -27739, -27847,
    -27738, -27848, -27737, -27848, -27736, -27849, -27736, -27850, -27735, -27851, -27734, -27852, -27733, -27853, -27732, -27854,
    -27730, -27855, -27729, -27857, -27728, -27858, -27727, -27859, -27725, -27861, -27724, -27862, -27723, -27864, -27721, -27865,
    -27719, -27867, -27718, -27869, -27716, -27870, -27714, -27872, -27712, -27875, -27710, -27877, -27707, -27879, -27705, -27882,
    -27702, -27884, -27700, -27887, -27697, -27890, -27693, -27893, -27690, -27897, -27686, -27901, -27682, -27905, -27678, -27909,
    -27674, -27914, -27669, -27919, -27663, -27925, -27657, -27931, -27650, -27938, -27643, -27946, -27635, -27955, -27626, -27964,
    -27616, -27975, -27604, -27988, -27591, -28002, -27575, -28019, -27557, -28038, -27536, -28061, -27510, -28090, -27479, -28124,
    -27440, -28168, -27390, -28226, -27324, -28304, -27230, -28417, -27091, -28594, -26859, -28910, -26401, -29632, -25092, -32767,
];

/// Band 1 of the band-limited square wave.
#[verifier::opaque]
pub const SQUARE_BAND_1: [i16; 1024] = [
    0, 24253, 32767, 28457, 25091, 27528, 29632, 27933, 26401, 27707, 28911, 27851, 26858, 27751, 28595, 27824,
    27090, 27768, 28418, 27812, 27229, 27776, 28305, 27806, 27322, 27781, 28227, 27802, 27389, 27784, 28170, 27800,
    27439, 27786, 28126, 27798, 27477, 27787, 28092, 27797, 27508, 27788, 28064, 27796, 27534, 27789, 28041, 27796,
    27555, 27790, 28021, 27795, 27572, 27790, 28005, 27795, 27587, 27790, 27991, 27795, 27601, 27791, 27979, 27794,
    27612, 27791, 27968, 27794, 27622, 27791, 27958, 27794, 27631, 27791, 27950, 27794, 27639, 27791, 27943, 27794,
    27646, 27792, 27936, 27794, 27652, 27792, 27930, 27793, 27658, 27792, 27924, 27793, 27663, 27792, 27919, 27793,
    27668, 27792, 27915, 27793, 27673, 27792, 27911, 27793, 27677, 27792, 27907, 27793, 27680, 27792, 27903, 27793,
    27684, 27792, 27900, 27793, 27687, 27792, 27897, 27793, 27690, 27792, 27894, 27793, 27692, 27792, 27892, 27793,
    27695, 27792, 27889, 27793, 27697, 27792, 27887, 27793, 27699, 27792, 27885, 27793, 27701, 27792, 27883, 27793,
    27703, 27792, 27881, 27793, 27705, 27792, 27879, 27793, 27707, 27792, 27878, 27793, 27708, 27792, 27876, 27793,
    27709, 27792, 27875, 27793, 27711, 27792, 27874, 27793, 27712, 27792, 27873, 27793, 27713, 27792, 27871, 27793,
    27714, 27792, 27870, 27793, 27715, 27792, 27869, 27793, 27716, 27792, 27869, 27793, 27717, 27792, 27868, 27793,
    27718, 27792, 27867, 27793, 27718, 27792, 27866, 27793, 27719, 27792, 27866, 27793, 27720, 27792, 27865, 27793,
    27720, 27792, 27865, 27793, 27721, 27792, 27864, 27793, 27721, 27792, 27864, 27793, 27722, 27792, 27863, 27793,
    27722, 27793, 27863, 27793, 27722, 27793, 27863, 27793, 27723, 27793, 27862, 27793, 27723, 27793, 27862, 27793,
    27723, 27793, 27862, 27793, 27723, 27793, 27862, 27793, 27723, 27793, 27862, 27793, 27723, 27793, 27862, 27793,
    27723, 27793, 27862, 27793, 27723, 27793, 27862, 27793, 27723, 27793, 27862, 27793, 27723, 27793, 27862, 27793,
    27723, 27793, 27862, 27793, 27723, 27793, 27862, 27793, 27723, 27793, 27863, 27793, 27722, 27793, 27863, 27793,
    27722, 27793, 27863, 27792, 27722, 27793, 27864, 27792, 27721, 27793, 27864, 27792, 27721, 27793, 27865, 27792,
    27720, 27793, 27865, 27792, 27720, 27793, 27866, 27792, 27719, 27793, 27866, 27792, 27718, 27793, 27867, 27792,
    27718, 27793, 27868, 27792, 27717, 27793, 27869, 27792, 27716, 27793, 27869, 27792, 27715, 27793, 27870, 27792,
    27714, 27793, 27871, 27792, 27713, 27793, 27873, 27792, 27712, 27793, 27874, 27792, 27711, 27793, 27875, 27792,
    27709, 27793, 27876, 27792, 27708, 27793, 27878, 27792, 27707, 27793, 27879, 27792, 27705, 27793, 27881, 27792,
    27703, 27793, 27883, 27792, 27701, 27793, 27885, 27792, 27699, 27793, 27887, 27792, 27697, 27793, 27889, 27792,
    27695, 27793, 27892, 27792, 27692, 27793, 27894, 27792, 27690, 27793, 27897, 27792, 27687, 27793, 27900, 27792,
    27684, 27793, 27903, 27792, 27680, 27793, 27907, 27792, 27677, 27793, 27911, 27792, 27673, 27793, 27915, 27792,
    27668, 27793, 27919, 27792, 27663, 27793, 27924, 27792, 27658, 27793, 27930, 27792, 27652, 27794, 27936, 27792,
    27646, 27794, 27943, 27791, 27639, 27794, 27950, 27791, 27631, 27794, 27958, 27791, 27622, 27794, 27968, 27791,
    27612, 27794, 27979, 27791, 27601, 27795, 27991, 27790, 27587, 27795, 28005, 27790, 27572, 27795, 28021, 27790,
    27555, 27796, 28041, 27789, 27534, 27796, 28064, 27788, 27508, 27797, 28092, 27787, 27477, 27798, 28126, 27786,
    27439, 27800, 28170, 27784, 27389, 27802, 28227, 27781, 27322, 27806, 28305, 27776, 27229, 27812, 28418, 27768,
    27090, 27824, 28595, 27751, 26858, 27851, 28911, 27707, 26401, 27933, 29632, 27528, 25091, 28457, 32767, 24253,
    0, -24253, -32767, -28457, -25091, -27528, -29632, -27933, -26401, -27707, -28911, -27851, -26858, -27751, -28595, -27824,
    -27090, -27768, -28418, -27812, -27229, -27776, -28305, -27806, -27322, -27781, -28227, -27802, -27389, -27784, -28170, -27800,
    -27439, -27786, -28126, -27798, -27477, -27787, -28092, -27797, -27508, -27788, -28064, -27796, -27534, -27789, -28041, -27796,
    -27555, -27790, -28021, -27795, -27572, -27790, -28005, -27795, -27587, -27790, -27991, -27795, -27601, -27791, -27979, -27794,
    -27612, -27791, -27968, -27794, -27622, -27791, -27958, -27794, -27631, -27791, -27950, -27794, -27639, -27791, -27943, -27794,
    -27646, -27792, -27936, -27794, -27652, -27792, -27930, -27793, -27658, -27792, -27924, -27793, -27663, -27792, -27919, -27793,
    -27668, -27792, -27915, -27793, -27673, -27792, -27911, -27793, -27677, -27792, -27907, -27793, -27680, -27792, -27903, -27793,
    -27684, -27792, -27900, -27793, -27687, -27792, -27897, -27793, -27690, -27792, -27894, -27793, -27692, -27792, -27892, -27793,
    -27695, -27792, -27889, -27793, -27697, -27792, -27887, -27793, -27699, -27792, -27885, -27793, -27701, -27792, -27883, -27793,
    -27703, -27792, -27881, -27793, -27705, -27792, -27879, -27793, -27707, -27792, -27878, -27793, -27708, -27792, -27876, -27793,
    -27709, -27792, -27875, -27793, -27711, -27792, -27874, -27793, -27712, -27792, -27873, -27793, -27713, -27792, -27871, -27793,
    -27714, -27792, -27870, -27793, -27715, -27792, -27869, -27793, -27716, -27792, -27869, -27793, -27717, -27792, -27868, -27793,
    -27718, -27792, -27867, -27793, -27718, -27792, -27866, -27793, -27719, -27792, -27866, -27793, -27720, -27792, -27865, -27793,
    -27720, -27792, -27865, -27793, -27721, -27792, -27864, -27793, -27721, -27792, -27864, -27793, -27722, -27792, -27863, -27793,
    -27722, -27793, -27863, -27793, -27722, -27793, -27863, -27793, -27723, -27793, -27862, -27793, -27723, -27793, -27862, -27793,
    -27723, -27793, -27862, -27793, -27723, -27793, -27862, -27793, -27723, -27793, -27862, -27793, -27723, -27793, -27862, -27793,
    -27723, -27793, -27862, -27793, -27723, -27793, -27862, -27793, -27723, -27793, -27862, -27793, -27723, -27793, -27862, -27793,
    -27723, -27793, -27862, -27793, -27723, -27793, -27862, -27793, -27723, -27793, -27863, -27793, -27722, -27793, -27863, -27793,
    -27722, -27793, -27863, -27792, -27722, -27793, -27864, -27792, -27721, -27793, -27864, -27792, -27721, -27793, -27865, -27792,
    -27720, -27793, -27865, -27792, -27720, -27793, -27866, -27792, -27719, -27793, -27866, -27792, -27718, -27793, -27867, -27792,
    -27718, -27793, -27868, -27792, -27717, -27793, -27869, -27792, -27716, -27793, -27869, -27792, -27715, -27793, -27870, -27792,
    -27714, -27793, -27871, -27792, -27713, -27793, -27873, -27792, -27712, -27793, -27874, -27792, -27711, -27793, -27875, -27792,
    -27709, -27793, -27876, -27792, -27708, -27793, -27878, -27792, -27707, -27793, -27879, -27792, -27705, -27793, -27881, -27792,
    -27703, -27793, -27883, -27792, -27701, -27793, -27885, -27792, -27699, -27793, -27887, -27792, -27697, -27793, -27889, -27792,
    -27695, -27793, -27892, -27792, -27692, -27793, -27894, -27792, -27690, -27793, -27897, -27792, -27687, -27793, -27900, -27792,
    -27684, -27793, -27903, -27792, -27680, -27793, -27907, -27792, -27677, -27793, -27911, -27792, -27673, -27793, -27915, -27792,
    -27668, -27793, -27919, -27792, -27663, -27793, -27924, -27792, -27658, -27793, -27930, -27792, -27652, -27794, -27936, -27792,
    -27646, -27794, -27943, -27791, -27639, -27794, -27950, -27791, -27631, -27794, -27958, -27791, -27622, -27794, -27968, -27791,
    -27612, -27794, -27979, -27791, -27601, -27795, -27991, -27790, -27587, -27795, -28005, -27790, -27572, -27795, -28021, -27790,
    -27555, -27796, -28041, -27789, -27534, -27796, -28064, -27788, -27508, -27797, -28092, -27787, -27477, -27798, -28126, -27786,
    -27439, -27800, -28170, -27784, -27389, -27802, -28227, -27781, -27322, -27806, -28305, -27776, -27229, -27812, -28418, -27768,
    -27090, -27824, -28595, -27751, -26858, -27851, -28911, -27707, -26401, -27933, -29632, -27528, -25091, -28457, -32767, -24253,
];

/// Band 2 of the band-limited square wave.
#[verifier::opaque]
pub const SQUARE_BAND_2: [i16; 1024] = [
    0, 13429, 24253, 30782, 32767, 31347, 28457, 25990, 25090, 25853, 27528, 29051, 29633, 29111, 27932, 26829,
    26399, 26795, 27706, 28571, 28913, 28592, 27850, 27139, 26855, 27124, 27751, 28355, 28597, 28366, 27824, 27298,
    27086, 27289, 27768, 28233, 28422, 28240, 27812, 27394, 27224, 27388, 27776, 28156, 28310, 28160, 27806, 27458,
    27317, 27454, 27781, 28102, 28232, 28105, 27802, 27504, 27382, 27501, 27784, 28062, 28176, 28065, 27799, 27538,
    27431, 27536, 27786, 28032, 28133, 28034, 27798, 27565, 27469, 27563, 27787, 28009, 28099, 28010, 27797, 27586,
    27499, 27584, 27788, 27990, 28073, 27991, 27796, 27603, 27523, 27602, 27789, 27974, 28050, 27975, 27795, 27617,
    27543, 27616, 27789, 27961, 28032, 27962, 27795, 27629, 27560, 27628, 27790, 27951, 28017, 27951, 27794, 27638,
    27574, 27638, 27790, 27941, 28004, 27942, 27794, 27647, 27586, 27646, 27790, 27934, 27993, 27934, 27794, 27654,
    27597, 27654, 27791, 27927, 27983, 27927, 27794, 27661, 27606, 27660, 27791, 27921, 27975, 27921, 27793, 27666,
    27613, 27666, 27791, 27916, 27968, 27916, 27793, 27671, 27620, 27670, 27791, 27912, 27961, 27912, 27793, 27675,
    27626, 27675, 27791, 27908, 27956, 27908, 27793, 27678, 27631, 27678, 27791, 27904, 27951, 27905, 27793, 27681,
    27635, 27681, 27792, 27902, 27947, 27902, 27793, 27684, 27639, 27684, 27792, 27899, 27943, 27899, 27793, 27686,
    27643, 27686, 27792, 27897, 27940, 27897, 27793, 27688, 27645, 27688, 27792, 27895, 27938, 27895, 27793, 27690,
    27648, 27690, 27792, 27894, 27936, 27894, 27792, 27691, 27650, 27691, 27792, 27892, 27934, 27892, 27792, 27693,
    27651, 27693, 27792, 27891, 27932, 27891, 27792, 27693, 27652, 27693, 27792, 27891, 27931, 27891, 27792, 27694,
    27653, 27694, 27792, 27890, 27931, 27890, 27792, 27694, 27654, 27694, 27792, 27890, 27930, 27890, 27792, 27694,
    27654, 27694, 27792, 27890, 27930, 27890, 27792, 27694, 27654, 27694, 27792, 27890, 27931, 27890, 27792, 27694,
    27653, 27694, 27792, 27891, 27931, 27891, 27792, 27693, 27652, 27693, 27792, 27891, 27932, 27891, 27792, 27693,
    27651, 27693, 27792, 27892, 27934, 27892, 27792, 27691, 27650, 27691, 27792, 27894, 27936, 27894, 27792, 27690,
    27648, 27690, 27793, 27895, 27938, 27895, 27792, 27688, 27645, 27688, 27793, 27897, 27940, 27897, 27792, 27686,
    27643, 27686, 27793, 27899, 27943, 27899, 27792, 27684, 27639, 27684, 27793, 27902, 27947, 27902, 27792, 27681,
    27635, 27681, 27793, 27905, 27951, 27904, 27791, 27678, 27631, 27678, 27793, 27908, 27956, 27908, 27791, 27675,
    27626, 27675, 27793, 27912, 27961, 27912, 27791, 27670, 27620, 27671, 27793, 27916, 27968, 27916, 27791, 27666,
    27613, 27666, 27793, 27921, 27975, 27921, 27791, 27660, 27606, 27661, 27794, 27927, 27983, 27927, 27791, 27654,
    27597, 27654, 27794, 27934, 27993, 27934, 27790, 27646, 27586, 27647, 27794, 27942, 28004, 27941, 27790, 27638,
    27574, 27638, 27794, 27951, 28017, 27951, 27790, 27628, 27560, 27629, 27795, 27962, 28032, 27961, 27789, 27616,
    27543, 27617, 27795, 27975, 28050, 27974, 27789, 27602, 27523, 27603, 27796, 27991, 28073, 27990, 27788, 27584,
    27499, 27586, 27797, 28010, 28099, 28009, 27787, 27563, 27469, 27565, 27798, 28034, 28133, 28032, 27786, 27536,
    27431, 27538, 27799, 28065, 28176, 28062, 27784, 27501, 27382, 27504, 27802, 28105, 28232, 28102, 27781, 27454,
    27317, 27458, 27806, 28160, 28310, 28156, 27776, 27388, 27224, 27394, 27812, 28240, 28422, 28233, 27768, 27289,
    27086, 27298, 27824, 28366, 28597, 28355, 27751, 27124, 26855, 27139, 27850, 28592, 28913, 28571, 27706, 26795,
    26399, 26829, 27932, 29111, 29633, 29051, 27528, 25853, 25090, 25990, 28457, 31347, 32767, 30782, 24253, 13429,
    0, -13429, -24253, -30782, -32767, -31347, -28457, -25990, -25090, -25853, -27528, -29051, -29633, -29111, -27932, -26829,
    -26399, -26795, -27706, -28571, -28913, -28592, -27850, -27139, -26855, -27124, -27751, -28355, -28597, -28366, -27824, -27298,
    -27086, -27289, -27768, -28233, -28422, -28240, -27812, -27394, -27224, -27388, -27776, -28156, -28310, -28160, -27806, -27458,
    -27317, -27454, -27781, -28102, -28232, -28105, -27802, -27504, -27382, -27501, -27784, -28062, -28176, -28065, -27799, -27538,
    -27431, -27536, -27786, -28032, -28133, -28034, -27798, -27565, -27469, -27563, -27787, -28009, -28099, -28010, -27797, -27586,
    -27499, -27584, -27788, -27990, -28073, -27991, -27796, -27603, -27523, -27602, -27789, -27974, -28050, -27975, -27795, -27617,
    -27543, -27616, -27789, -27961, -28032, -27962, -27795, -27629, -27560, -27628, -27790, -27951, -28017, -27951, -27794, -27638,
    -27574, -27638, -27790, -27941, -28004, -27942, -27794, -27647, -27586, -27646, -27790, -27934, -27993, -27934, -27794, -27654,
    -27597, -27654, -27791, -27927, -27983, -27927, -27794, -27661, -27606, -27660, -27791, -27921, -27975, -27921, -27793, -27666,
    -27613, -27666, -27791, -27916, -27968, -27916, -27793, -27671, -27620, -27670, -27791, -27912, -27961, -27912, -27793, -27675,
    -27626, -27675, -27791, -27908, -27956, -27908, -27793, -27678, -27631, -27678, -27791, -27904, -27951, -27905, -27793, -27681,
    -27635, -27681, -27792, -27902, -27947, -27902, -27793, -27684, -27639, -27684, -27792, -27899, -27943, -27899, -27793, -27686,
    -27643, -27686, -27792, -27897, -27940, -27897, -27793, -27688, -27645, -27688, -27792, -27895, -27938, -27895, -27793, -27690,
    -27648, -27690, -27792, -27894, -27936, -27894, -27792, -27691, -27650, -27691, -27792, -27892, -27934, -27892, -27792, -27693,
    -27651, -27693, -27792, -27891, -27932, -27891, -27792, -27693, -27652, -27693, -27792, -27891, -27931, -27891, -27792, -27694,
    -27653, -27694, -27792, -27890, -27931, -27890, -27792, -27694, -27654, -27694, -27792, -27890, -27930, -27890, -27792, -27694,
    -27654, -27694, -27792, -27890, -27930, -27890, -27792, -27694, -27654, -27694, -27792, -27890, -27931, -27890, -27792, -27694,
    -27653, -27694, -27792, -27891, -27931, -27891, -27792, -27693, -27652, -27693, -27792, -27891, -27932, -27891, -27792, -27693,
    -27651, -27693, -27792, -27892, -27934, -27892, -27792, -27691, -27650, -27691, -27792, -27894, -27936, -27894, -27792, -27690,
    -27648, -27690, -27793, -27895, -27938, -27895, -27792, -27688, -27645, -27688, -27793, -27897, -27940, -27897, -27792, -27686,
    -27643, -27686, -27793, -27899, -27943, -27899, -27792, -27684, -27639, -27684, -27793, -27902, -27947, -27902, -27792, -27681,
    -27635, -27681, -27793, -27905, -27951, -27904, -27791, -27678, -27631, -27678, -27793, -27908, -27956, -27908, -27791, -27675,
    -27626, -27675, -27793, -27912, -27961, -27912, -27791, -27670, -27620, -27671, -27793, -27916, -27968, -27916, -27791, -27666,
    -27613, -27666, -27793, -27921, -27975, -27921, -27791, -27660, -27606, -27661, -27794, -27927, -27983, -27927, -27791, -27654,
    -27597, -27654, -27794, -27934, -27993, -27934, -27790, -27646, -27586, -27647, -27794, -27942, -28004, -27941, -27790, -27638,
    -27574, -27638, -27794, -27951, -28017, -27951, -27790, -27628, -27560, -27629, -27795, -27962, -28032, -27961, -27789, -27616,
    -27543, -27617, -27795, -27975, -28050, -27974, -27789, -27602, -27523, -27603, -27796, -27991, -28073, -27990, -27788, -27584,
    -27499, -27586, -27797, -28010, -28099, -28009, -27787, -27563, -27469, -27565, -27798, -28034, -28133, -28032, -27786, -27536,
    -27431, -27538, -27799, -28065, -28176, -28062, -27784, -27501, -27382, -27504, -27802, -28105, -28232, -28102, -27781, -27454,
    -27317, -27458, -27806, -28160, -28310, -28156, -27776, -27388, -27224, -27394, -27812, -28240, -28422, -28233, -27768, -27289,
    -27086, -27298, -27824, -28366, -28597, -28355, -27751, -27124, -26855, -27139, -27850, -28592, -28913, -28571, -27706, -26795,
    -26399, -26829, -27932, -29111, -29633, -29051, -27528, -25853, -25090, -25990, -28457, -31347, -32767, -30782, -24253, -13429,
];

/// Band 3 of the band-limited square wave.
#[verifier::opaque]
pub const SQUARE_BAND_3: [i16; 1024] = [
    0, 6888, 13428, 19302, 24252, 28106, 30782, 32299, 32767, 32371, 31347, 29955, 28455, 27073, 25987, 25310,
    25086, 25292, 25850, 26641, 27527, 28370, 29053, 29489, 29637, 29497, 29113, 28560, 27930, 27322, 26823, 26501,
    26390, 26496, 26789, 27216, 27705, 28182, 28575, 28832, 28920, 28835, 28597, 28249, 27848, 27456, 27130, 26917,
    26844, 26915, 27115, 27409, 27750, 28084, 28362, 28545, 28608, 28546, 28373, 28118, 27822, 27530, 27286, 27126,
    27071, 27125, 27278, 27504, 27767, 28026, 28243, 28386, 28436, 28387, 28250, 28046, 27810, 27576, 27380, 27250,
    27205, 27250, 27375, 27560, 27775, 27989, 28168, 28286, 28328, 28287, 28172, 28002, 27803, 27607, 27441, 27332,
    27294, 27331, 27438, 27596, 27780, 27963, 28117, 28219, 28254, 28219, 28120, 27972, 27800, 27628, 27484, 27389,
    27355, 27388, 27482, 27621, 27783, 27945, 28080, 28171, 28202, 28171, 28083, 27951, 27797, 27644, 27516, 27430,
    27400, 27430, 27514, 27639, 27785, 27931, 28054, 28135, 28164, 28135, 28055, 27936, 27796, 27656, 27539, 27461,
    27433, 27460, 27537, 27652, 27786, 27920, 28033, 28108, 28135, 28109, 28035, 27924, 27794, 27665, 27556, 27484,
    27458, 27484, 27555, 27662, 27788, 27913, 28018, 28088, 28113, 28088, 28019, 27915, 27794, 27672, 27570, 27501,
    27477, 27501, 27569, 27670, 27788, 27907, 28007, 28073, 28096, 28073, 28007, 27909, 27793, 27677, 27580, 27514,
    27492, 27514, 27579, 27675, 27789, 27902, 27998, 28062, 28084, 28062, 27999, 27904, 27792, 27681, 27587, 27524,
    27502, 27524, 27586, 27680, 27790, 27899, 27992, 28054, 28076, 28054, 27992, 27900, 27792, 27683, 27592, 27530,
    27509, 27530, 27591, 27683, 27790, 27897, 27988, 28049, 28070, 28049, 27988, 27898, 27791, 27685, 27594, 27534,
    27513, 27534, 27594, 27684, 27790, 27896, 27986, 28046, 28067, 28046, 27986, 27897, 27791, 27685, 27595, 27535,
    27514, 27535, 27595, 27685, 27791, 27897, 27986, 28046, 28067, 28046, 27986, 27896, 27790, 27684, 27594, 27534,
    27513, 27534, 27594, 27685, 27791, 27898, 27988, 28049, 28070, 28049, 27988, 27897, 27790, 27683, 27591, 27530,
    27509, 27530, 27592, 27683, 27792, 27900, 27992, 28054, 28076, 28054, 27992, 27899, 27790, 27680, 27586, 27524,
    27502, 27524, 27587, 27681, 27792, 27904, 27999, 28062, 28084, 28062, 27998, 27902, 27789, 27675, 27579, 27514,
    27492, 27514, 27580, 27677, 27793, 27909, 28007, 28073, 28096, 28073, 28007, 27907, 27788, 27670, 27569, 27501,
    27477, 27501, 27570, 27672, 27794, 27915, 28019, 28088, 28113, 28088, 28018, 27913, 27788, 27662, 27555, 27484,
    27458, 27484, 27556, 27665, 27794, 27924, 28035, 28109, 28135, 28108, 28033, 27920, 27786, 27652, 27537, 27460,
    27433, 27461, 27539, 27656, 27796, 27936, 28055, 28135, 28164, 28135, 28054, 27931, 27785, 27639, 27514, 27430,
    27400, 27430, 27516, 27644, 27797, 27951, 28083, 28171, 28202, 28171, 28080, 27945, 27783, 27621, 27482, 27388,
    27355, 27389, 27484, 27628, 27800, 27972, 28120, 28219, 28254, 28219, 28117, 27963, 27780, 27596, 27438, 27331,
    27294, 27332, 27441, 27607, 27803, 28002, 28172, 28287, 28328, 28286, 28168, 27989, 27775, 27560, 27375, 27250,
    27205, 27250, 27380, 27576, 27810, 28046, 28250, 28387, 28436, 28386, 28243, 28026, 27767, 27504, 27278, 27125,
    27071, 27126, 27286, 27530, 27822, 28118, 28373, 28546, 28608, 28545, 28362, 28084, 27750, 27409, 27115, 26915,
    26844, 26917, 27130, 27456, 27848, 28249, 28597, 28835, 28920, 28832, 28575, 28182, 27705, 27216, 26789, 26496,
    26390, 26501, 26823, 27322, 27930, 28560, 29113, 29497, 29637, 29489, 29053, 28370, 27527, 26641, 25850, 25292,
    25086, 25310, 25987, 27073, 28455, 29955, 31347, 32371, 32767, 32299, 30782, 28106, 24252, 19302, 13428, 6888,
    0, -6888, -13428, -19302, -24252, -28106, -30782, -32299, -32767, -32371, -31347, -29955, -28455, -27073, -25987, -25310,
    -25086, -25292, -25850, -26641, -27527, -28370, -29053, -29489, -29637, -29497, -29113, -28560, -27930, -27322, -26823, -26501,
    -26390, -26496, -26789, -27216, -27705, -28182, -28575, -28832, -28920, -28835, -28597, -28249, -27848, -27456, -27130, -26917,
    -26844, -26915, -27115, -27409, -27750, -28084, -28362, -28545, -28608, -28546, -28373, -28118, -27822, -27530, -27286, -27126,
    -27071, -27125, -27278, -27504, -27767, -28026, -28243, -28386, -28436, -28387, -28250, -28046, -27810, -27576, -27380, -27250,
    -27205, -27250, -27375, -27560, -27775, -27989, -28168, -28286, -28328, -28287, -28172, -28002, -27803, -27607, -27441, -27332,
    -27294, -27331, -27438, -27596, -27780, -27963, -28117, -28219, -28254, -28219, -28120, -27972, -27800, -27628, -27484, -27389,
    -27355, -27388, -27482, -27621, -27783, -27945, -28080, -28171, -28202, -28171, -28083, -27951, -27797, -27644, -27516, -27430,
    -27400, -27430, -27514, -27639, -27785, -27931, -28054, -28135, -28164, -28135, -28055, -27936, -27796, -27656, -27539, -27461,
    -27433, -27460, -27537, -27652, -27786, -27920, -28033, -28108, -28135, -28109, -28035, -27924, -27794, -27665, -27556, -27484,
    -27458, -27484, -27555, -27662, -27788, -27913, -28018, -28088, -28113, -28088, -28019, -27915, -27794, -27672, -27570, -27501,
    -27477, -27501, -27569, -27670, -27788, -27907, -28007, -28073, -28096, -28073, -28007, -27909, -27793, -27677, -27580, -27514,
    -27492, -27514, -27579, -27675, -27789, -27902, -27998, -28062, -28084, -28062, -27999, -27904, -27792, -27681, -27587, -27524,
    -27502, -27524, -27586, -27680, -27790, -27899, -27992, -28054, -28076, -28054, -27992, -27900, -27792, -27683, -27592, -27530,
    -27509, -27530, -27591, -27683, -27790, -27897, -27988, -28049, -28070, -28049, -27988, -27898, -27791, -27685, -27594, -27534,
    -27513, -27534, -27594, -27684, -27790, -27896, -27986, -28046, -28067, -28046, -27986, -27897, -27791, -27685, -27595, -27535,
    -27514, -27535, -27595, -27685, -27791, -27897, -27986, -28046, -28067, -28046, -27986, -27896, -27790, -27684, -27594, -27534,
    -27513, -27534, -27594, -27685, -27791, -27898, -27988, -28049, -28070, -28049, -27988, -27897, -27790, -27683, -27591, -27530,
    -27509, -27530, -27592, -27683, -27792, -27900, -27992, -28054, -28076, -28054, -27992, -27899, -27790, -27680, -27586, -27524,
    -27502, -27524, -27587, -27681, -27792, -27904, -27999, -28062, -28084, -28062, -27998, -27902, -27789, -27675, -27579, -27514,
    -27492, -27514, -27580, -27677, -27793, -27909, -28007, -28073, -28096, -28073, -28007, -27907, -27788, -27670, -27569, -27501,
    -27477, -27501, -27570, -27672, -27794, -27915, -28019, -28088, -28113, -28088, -28018, -27913, -27788, -27662, -27555, -27484,
    -27458, -27484, -27556, -27665, -27794, -27924, -28035, -28109, -28135, -28108, -28033, -27920, -27786, -27652, -27537, -27460,
    -27433, -27461, -27539, -27656, -27796, -27936, -28055, -28135, -28164, -28135, -28054, -27931, -27785, -27639, -27514, -27430,
    -27400, -27430, -27516, -27644, -27797, -27951, -28083, -28171, -28202, -28171, -28080, -27945, -27783, -27621, -27482, -27388,
    -27355, -27389, -27484, -27628, -27800, -27972, -28120, -28219, -28254, -28219, -28117, -27963, -27780, -27596, -27438, -27331,
    -27294, -27332, -27441, -27607, -27803, -28002, -28172, -28287, -28328, -28286, -28168, -27989, -27775, -27560, -27375, -27250,
    -27205, -27250, -27380, -27576, -27810, -28046, -28250, -28387, -28436, -28386, -28243, -28026, -27767, -27504, -27278, -27125,
    -27071, -27126, -27286, -27530, -27822, -28118, -28373, -28546, -28608, -28545, -28362, -28084, -27750, -27409, -27115, -26915,
    -26844, -26917, -27130, -27456, -27848, -28249, -28597, -28835, -28920, -28832, -28575, -28182, -27705, -27216, -26789, -26496,
    -26390, -26501, -26823, -27322, -27930, -28560, -29113, -29497, -29637, -29489, -29053, -28370, -27527, -26641, -25850, -25292,
    -25086, -25310, -25987, -27073, -28455, -29955, -31347, -32371, -32767, -32299, -30782, -28106, -24252, -19302, -13428, -6888,
];

/// Band 4 of the band-limited square wave.
#[verifier::opaque]
pub const SQUARE_BAND_4: [i16; 1024] = [
    0, 3466, 6887, 10221, 13426, 16463, 19299, 21902, 24250, 26321, 28103, 29590, 30780, 31679, 32298, 32654,
    32767, 32663, 32370, 31920, 31344, 30677, 29951, 29197, 28447, 27727, 27061, 26470, 25971, 25576, 25292, 25122,
    25067, 25120, 25274, 25517, 25835, 26212, 26631, 27074, 27523, 27962, 28373, 28744, 29062, 29317, 29502, 29614,
    29651, 29615, 29510, 29343, 29122, 28857, 28561, 28245, 27922, 27605, 27304, 27032, 26798, 26608, 26469, 26385,
    26357, 26385, 26465, 26594, 26765, 26970, 27201, 27448, 27702, 27953, 28191, 28407, 28595, 28747, 28858, 28926,
    28949, 28926, 28861, 28756, 28615, 28446, 28256, 28051, 27840, 27631, 27433, 27251, 27094, 26966, 26872, 26814,
    26795, 26814, 26870, 26960, 27080, 27225, 27388, 27565, 27746, 27927, 28099, 28256, 28393, 28504, 28586, 28636,
    28653, 28636, 28587, 28508, 28403, 28275, 28130, 27974, 27813, 27653, 27500, 27360, 27238, 27139, 27066, 27021,
    27006, 27020, 27065, 27136, 27231, 27346, 27477, 27618, 27764, 27909, 28048, 28175, 28286, 28377, 28444, 28485,
    28498, 28485, 28444, 28379, 28292, 28186, 28065, 27935, 27801, 27667, 27539, 27421, 27318, 27234, 27172, 27134,
    27121, 27134, 27172, 27233, 27314, 27413, 27525, 27647, 27773, 27899, 28019, 28129, 28226, 28304, 28363, 28399,
    28411, 28399, 28363, 28306, 28229, 28135, 28029, 27913, 27794, 27675, 27561, 27456, 27364, 27289, 27233, 27199,
    27187, 27199, 27233, 27288, 27362, 27451, 27553, 27664, 27778, 27893, 28003, 28104, 28192, 28264, 28318, 28351,
    28362, 28351, 28318, 28265, 28194, 28107, 28008, 27901, 27789, 27678, 27572, 27474, 27388, 27317, 27265, 27233,
    27222, 27233, 27265, 27317, 27387, 27472, 27568, 27673, 27782, 27891, 27996, 28092, 28177, 28246, 28298, 28329,
    28340, 28329, 28298, 28246, 28177, 28093, 27998, 27894, 27786, 27678, 27574, 27478, 27395, 27326, 27275, 27243,
    27233, 27243, 27275, 27326, 27395, 27478, 27574, 27678, 27786, 27894, 27998, 28093, 28177, 28246, 28298, 28329,
    28340, 28329, 28298, 28246, 28177, 28092, 27996, 27891, 27782, 27673, 27568, 27472, 27387, 27317, 27265, 27233,
    27222, 27233, 27265, 27317, 27388, 27474, 27572, 27678, 27789, 27901, 28008, 28107, 28194, 28265, 28318, 28351,
    28362, 28351, 28318, 28264, 28192, 28104, 28003, 27893, 27778, 27664, 27553, 27451, 27362, 27288, 27233, 27199,
    27187, 27199, 27233, 27289, 27364, 27456, 27561, 27675, 27794, 27913, 28029, 28135, 28229, 28306, 28363, 28399,
    28411, 28399, 28363, 28304, 28226, 28129, 28019, 27899, 27773, 27647, 27525, 27413, 27314, 27233, 27172, 27134,
    27121, 27134, 27172, 27234, 27318, 27421, 27539, 27667, 27801, 27935, 28065, 28186, 28292, 28379, 28444, 28485,
    28498, 28485, 28444, 28377, 28286, 28175, 28048, 27909, 27764, 27618, 27477, 27346, 27231, 27136, 27065, 27020,
    27006, 27021, 27066, 27139, 27238, 27360, 27500, 27653, 27813, 27974, 28130, 28275, 28403, 28508, 28587, 28636,
    28653, 28636, 28586, 28504, 28393, 28256, 28099, 27927, 27746, 27565, 27388, 27225, 27080, 26960, 26870, 26814,
    26795, 26814, 26872, 26966, 27094, 27251, 27433, 27631, 27840, 28051, 28256, 28446, 28615, 28756, 28861, 28926,
    28949, 28926, 28858, 28747, 28595, 28407, 28191, 27953, 27702, 27448, 27201, 26970, 26765, 26594, 26465, 26385,
    26357, 26385, 26469, 26608, 26798, 27032, 27304, 27605, 27922, 28245, 28561, 28857, 29122, 29343, 29510, 29615,
    29651, 29614, 29502, 29317, 29062, 28744, 28373, 27962, 27523, 27074, 26631, 26212, 25835, 25517, 25274, 25120,
    25067, 25122, 25292, 25576, 25971, 26470, 27061, 27727, 28447, 29197, 29951, 30677, 31344, 31920, 32370, 32663,
    32767, 32654, 32298, 31679, 30780, 29590, 28103, 26321, 24250, 21902, 19299, 16463, 13426, 10221, 6887, 3466,
    0, -3466, -6887, -10221, -13426, -16463, -19299, -21902, -24250, -26321, -28103, -29590, -30780, -31679, -32298, -32654,
    -32767, -32663, -32370, -31920, -31344, -30677, -29951, -29197, -28447, -27727, -27061, -26470, -25971, -25576, -25292, -25122,
    -25067, -25120, -25274, -25517, -25835, -26212, -26631, -27074, -27523, -27962, -28373, -28744, -29062, -29317, -29502, -29614,
    -29651, -29615, -29510, -29343, -29122, -28857, -28561, -28245, -27922, -27605, -27304, -27032, -26798, -26608, -26469, -26385,
    -26357, -26385, -26465, -26594, -26765, -26970, -27201, -27448, -27702, -27953, -28191, -28407, -28595, -28747, -28858, -28926,
    -28949, -28926, -28861, -28756, -28615, -28446, -28256, -28051, -27840, -27631, -27433, -27251, -27094, -26966, -26872, -26814,
    -26795, -26814, -26870, -26960, -27080, -27225, -27388, -27565, -27746, -27927, -28099, -28256, -28393, -28504, -28586, -28636,
    -28653, -28636, -28587, -28508, -28403, -28275, -28130, -27974, -27813, -27653, -27500, -27360, -27238, -27139, -27066, -27021,
    -27006, -27020, -27065, -27136, -27231, -27346, -27477, -27618, -27764, -27909, -28048, -28175, -28286, -28377, -28444, -28485,
    -28498, -28485, -28444, -28379, -28292, -28186, -28065, -27935, -27801, -27667, -27539, -27421, -27318, -27234, -27172, -27134,
    -27121, -27134, -27172, -27233, -27314, -27413, -27525, -27647, -27773, -27899, -28019, -28129, -28226, -28304, -28363, -28399,
    -28411, -28399, -28363, -28306, -28229, -28135, -28029, -27913, -27794, -27675, -27561, -27456, -27364, -27289, -27233, -27199,
    -27187, -27199, -27233, -27288, -27362, -27451, -27553, -27664, -27778, -27893, -28003, -28104, -28192, -28264, -28318, -28351,
    -28362, -28351, -28318, -28265, -28194, -28107, -28008, -27901, -27789, -27678, -27572, -27474, -27388, -27317, -27265, -27233,
    -27222, -27233, -27265, -27317, -27387, -27472, -27568, -27673, -27782, -27891, -27996, -28092, -28177, -28246, -28298, -28329,
    -28340, -28329, -28298, -28246, -28177, -28093, -27998, -27894, -27786, -27678, -27574, -27478, -27395, -27326, -27275, -27243,
    -27233, -27243, -27275, -27326, -27395, -27478, -27574, -27678, -27786, -27894, -27998, -28093, -28177, -28246, -28298, -28329,
    -28340, -28329, -28298, -28246, -28177, -28092, -27996, -27891, -27782, -27673, -27568, -27472, -27387, -27317, -27265, -27233,
    -27222, -27233, -27265, -27317, -27388, -27474, -27572, -27678, -27789, -27901, -28008, -28107, -28194, -28265, -28318, -28351,
    -28362, -28351, -28318, -28264, -28192, -28104, -28003, -27893, -27778, -27664, -27553, -27451, -27362, -27288, -27233, -27199,
    -27187, -27199, -27233, -27289, -27364, -27456, -27561, -27675, -27794, -27913, -28029, -28135, -28229, -28306, -28363, -28399,
    -28411, -28399, -28363, -28304, -28226, -28129, -28019, -27899, -27773, -27647, -27525, -27413, -27314, -27233, -27172, -27134,
    -27121, -27134, -27172, -27234, -27318, -27421, -27539, -27667, -27801, -27935, -28065, -28186, -28292, -28379, -28444, -28485,
    -28498, -28485, -28444, -28377, -28286, -28175, -28048, -27909, -27764, -27618, -27477, -27346, -27231, -27136, -27065, -27020,
    -27006, -27021, -27066, -27139, -27238, -27360, -27500, -27653, -27813, -27974, -28130, -28275, -28403, -28508, -28587, -28636,
    -28653, -28636, -28586, -28504, -28393, -28256, -28099, -27927, -27746, -27565, -27388, -27225, -27080, -26960, -26870, -26814,
    -26795, -26814, -26872, -26966, -27094, -27251, -27433, -27631, -27840, -28051, -28256, -28446, -28615, -28756, -28861, -28926,
    -28949, -28926, -28858, -28747, -28595, -28407, -28191, -27953, -27702, -27448, -27201, -26970, -26765, -26594, -26465, -26385,
    -26357, -26385, -26469, -26608, -26798, -27032, -27304, -27605, -27922, -28245, -28561, -28857, -29122, -29343, -29510, -29615,
    -29651, -29614, -29502, -29317, -29062, -28744, -28373, -27962, -27523, -27074, -26631, -26212, -25835, -25517, -25274, -25120,
    -25067, -25122, -25292, -25576, -25971, -26470, -27061, -27727, -28447, -29197, -29951, -30677, -31344, -31920, -32370, -32663,
    -32767, -32654, -32298, -31679, -30780, -29590, -28103, -26321, -24250, -21902, -19299, -16463, -13426, -10221, -6887, -3466,
];

/// Band 5 of the band-limited square wave.
#[verifier::opaque]
pub const SQUARE_BAND_5: [i16; 1024] = [
    0, 1734, 3463, 5180, 6882, 8561, 10213, 11833, 13416, 14957, 16452, 17896, 19287, 20619, 21890, 23098,
    24238, 25310, 26311, 27239, 28095, 28876, 29583, 30216, 30775, 31262, 31676, 32021, 32297, 32507, 32654, 32739,
    32767, 32740, 32662, 32537, 32368, 32160, 31915, 31640, 31336, 31010, 30664, 30304, 29932, 29554, 29172, 28791,
    28414, 28045, 27686, 27342, 27013, 26704, 26415, 26150, 25909, 25695, 25508, 25349, 25220, 25119, 25047, 25005,
    24991, 25004, 25045, 25111, 25202, 25316, 25450, 25604, 25776, 25962, 26162, 26373, 26592, 26818, 27047, 27279,
    27510, 27738, 27962, 28179, 28387, 28585, 28770, 28942, 29100, 29240, 29364, 29470, 29557, 29625, 29673, 29702,
    29712, 29703, 29674, 29628, 29564, 29484, 29389, 29279, 29156, 29022, 28878, 28725, 28565, 28399, 28231, 28060,
    27888, 27718, 27551, 27388, 27232, 27082, 26941, 26810, 26690, 26582, 26487, 26405, 26338, 26285, 26247, 26224,
    26217, 26224, 26247, 26283, 26334, 26398, 26474, 26562, 26660, 26769, 26885, 27009, 27139, 27273, 27411, 27551,
    27691, 27831, 27968, 28103, 28233, 28357, 28474, 28583, 28683, 28774, 28853, 28922, 28979, 29023, 29055, 29075,
    29081, 29075, 29056, 29024, 28981, 28926, 28861, 28785, 28700, 28606, 28506, 28398, 28285, 28168, 28048, 27926,
    27803, 27680, 27559, 27441, 27326, 27217, 27113, 27017, 26928, 26847, 26776, 26715, 26664, 26624, 26595, 26578,
    26572, 26578, 26595, 26624, 26663, 26712, 26772, 26841, 26918, 27003, 27096, 27194, 27297, 27404, 27515, 27627,
    27741, 27854, 27965, 28075, 28181, 28282, 28379, 28468, 28551, 28626, 28693, 28750, 28798, 28835, 28862, 28878,
    28884, 28878, 28862, 28835, 28798, 28751, 28695, 28629, 28556, 28474, 28387, 28293, 28194, 28091, 27985, 27877,
    27769, 27660, 27552, 27447, 27344, 27246, 27153, 27066, 26985, 26912, 26848, 26792, 26746, 26709, 26683, 26667,
    26662, 26667, 26683, 26709, 26746, 26792, 26848, 26912, 26985, 27066, 27153, 27246, 27344, 27447, 27552, 27660,
    27769, 27877, 27985, 28091, 28194, 28293, 28387, 28474, 28556, 28629, 28695, 28751, 28798, 28835, 28862, 28878,
    28884, 28878, 28862, 28835, 28798, 28750, 28693, 28626, 28551, 28468, 28379, 28282, 28181, 28075, 27965, 27854,
    27741, 27627, 27515, 27404, 27297, 27194, 27096, 27003, 26918, 26841, 26772, 26712, 26663, 26624, 26595, 26578,
    26572, 26578, 26595, 26624, 26664, 26715, 26776, 26847, 26928, 27017, 27113, 27217, 27326, 27441, 27559, 27680,
    27803, 27926, 28048, 28168, 28285, 28398, 28506, 28606, 28700, 28785, 28861, 28926, 28981, 29024, 29056, 29075,
    29081, 29075, 29055, 29023, 28979, 28922, 28853, 28774, 28683, 28583, 28474, 28357, 28233, 28103, 27968, 27831,
    27691, 27551, 27411, 27273, 27139, 27009, 26885, 26769, 26660, 26562, 26474, 26398, 26334, 26283, 26247, 26224,
    26217, 26224, 26247, 26285, 26338, 26405, 26487, 26582, 26690, 26810, 26941, 27082, 27232, 27388, 27551, 27718,
    27888, 28060, 28231, 28399, 28565, 28725, 28878, 29022, 29156, 29279, 29389, 29484, 29564, 29628, 29674, 29703,
    29712, 29702, 29673, 29625, 29557, 29470, 29364, 29240, 29100, 28942, 28770, 28585, 28387, 28179, 27962, 27738,
    27510, 27279, 27047, 26818, 26592, 26373, 26162, 25962, 25776, 25604, 25450, 25316, 25202, 25111, 25045, 25004,
    24991, 25005, 25047, 25119, 25220, 25349, 25508, 25695, 25909, 26150, 26415, 26704, 27013, 27342, 27686, 28045,
    28414, 28791, 29172, 29554, 29932, 30304, 30664, 31010, 31336, 31640, 31915, 32160, 32368, 32537, 32662, 32740,
    32767, 32739, 32654, 32507, 32297, 32021, 31676, 31262, 30775, 30216, 29583, 28876, 28095, 27239, 26311, 25310,
    24238, 23098, 21890, 20619, 19287, 17896, 16452, 14957, 13416, 11833, 10213, 8561, 6882, 5180, 3463, 1734,
    0, -1734, -3463, -5180, -6882, -8561, -10213, -11833, -13416, -14957, -16452, -17896, -19287, -20619, -21890, -23098,
    -24238, -25310, -26311, -27239, -28095, -28876, -29583, -30216, -30775, -31262, -31676, -32021, -32297, -32507, -32654, -32739,
    -32767, -32740, -32662, -32537, -32368, -32160, -31915, -31640, -31336, -31010, -30664, -30304, -29932, -29554, -29172, -28791,
    -28414, -28045, -27686, -27342, -27013, -26704, -26415, -26150, -25909, -25695, -25508, -25349, -25220, -25119, -25047, -25005,
    -24991, -25004, -25045, -25111, -25202, -25316, -25450, -25604, -25776, -25962, -26162, -26373, -26592, -26818, -27047, -27279,
    -27510, -27738, -27962, -28179, -28387, -28585, -28770, -28942, -29100, -29240, -29364, -29470, -29557, -29625, -29673, -29702,
    -29712, -29703, -29674, -29628, -29564, -29484, -29389, -29279, -29156, -29022, -28878, -28725, -28565, -28399, -28231, -28060,
    -27888, -27718, -27551, -27388, -27232, -27082, -26941, -26810, -26690, -26582, -26487, -26405, -26338, -26285, -26247, -26224,
    -26217, -26224, -26247, -26283, -26334, -26398, -26474, -26562, -26660, -26769, -26885, -27009, -27139, -27273, -27411, -27551,
    -27691, -27831, -27968, -28103, -28233, -28357, -28474, -28583, -28683, -28774, -28853, -28922, -28979, -29023, -29055, -29075,
    -29081, -29075, -29056, -29024, -28981, -28926, -28861, -28785, -28700, -28606, -28506, -28398, -28285, -28168, -28048, -27926,
    -27803, -27680, -27559, -27441, -27326, -27217, -27113, -27017, -26928, -26847, -26776, -26715, -26664, -26624, -26595, -26578,
    -26572, -26578, -26595, -26624, -26663, -26712, -26772, -26841, -26918, -27003, -27096, -27194, -27297, -27404, -27515, -27627,
    -27741, -27854, -27965, -28075, -28181, -28282, -28379, -28468, -28551, -28626, -28693, -28750, -28798, -28835, -28862, -28878,
    -28884, -28878, -28862, -28835, -28798, -28751, -28695, -28629, -28556, -28474, -28387, -28293, -28194, -28091, -27985, -27877,
    -27769, -27660, -27552, -27447, -27344, -27246, -27153, -27066, -26985, -26912, -26848, -26792, -26746, -26709, -26683, -26667,
    -26662, -26667, -26683, -26709, -26746, -26792, -26848, -26912, -26985, -27066, -27153, -27246, -27344, -27447, -27552, -27660,
    -27769, -27877, -27985, -28091, -28194, -28293, -28387, -28474, -28556, -28629, -28695, -28751, -28798, -28835, -28862, -28878,
    -28884, -28878, -28862, -28835, -28798, -28750, -28693, -28626, -28551, -28468, -28379, -28282, -28181, -28075, -27965, -27854,
    -27741, -27627, -27515, -27404, -27297, -27194, -27096, -27003, -26918, -26841, -26772, -26712, -26663, -26624, -26595, -26578,
    -26572, -26578, -26595, -26624, -26664, -26715, -26776, -26847, -26928, -27017, -27113, -27217, -27326, -27441, -27559, -27680,
    -27803, -27926, -28048, -28168, -28285, -28398, -28506, -28606, -28700, -28785, -28861, -28926, -28981, -29024, -29056, -29075,
    -29081, -29075, -29055, -29023, -28979, -28922, -28853, -28774, -28683, -28583, -28474, -28357, -28233, -28103, -27968, -27831,
    -27691, -27551, -27411, -27273, -27139, -27009, -26885, -26769, -26660, -26562, -26474, -26398, -26334, -26283, -26247, -26224,
    -26217, -26224, -26247, -26285, -26338, -26405, -26487, -26582, -26690, -26810, -26941, -27082, -27232, -27388, -27551, -27718,
    -27888, -28060, -28231, -28399, -28565, -28725, -28878, -29022, -29156, -29279, -29389, -29484, -29564, -29628, -29674, -29703,
    -29712, -29702, -29673, -29625, -29557, -29470, -29364, -29240, -29100, -28942, -28770, -28585, -28387, -28179, -27962, -27738,
    -27510, -27279, -27047, -26818, -26592, -26373, -26162, -25962, -25776, -25604, -25450, -25316, -25202, -25111, -25045, -25004,
    -24991, -25005, -25047, -25119, -25220, -25349, -25508, -25695, -25909, -26150, -26415, -26704, -27013, -27342, -27686, -28045,
    -28414, -28791, -29172, -29554, -29932, -30304, -30664, -31010, -31336, -31640, -31915, -32160, -32368, -32537, -32662, -32740,
    -32767, -32739, -32654, -32507, -32297, -32021, -31676, -31262, -30775, -30216, -29583, -28876, -28095, -27239, -26311, -25310,
    -24238, -23098, -21890, -20619, -19287, -17896, -16452, -14957, -13416, -11833, -10213, -8561, -6882, -5180, -3463, -1734,
];

/// Band 6 of the band-limited square wave.
#[verifier::opaque]
pub const SQUARE_BAND_6: [i16; 1024] = [
    0, 865, 1728, 2591, 3451, 4309, 5163, 6014, 6859, 7699, 8534, 9361, 10181, 10993, 11797, 12592,
    13376, 14151, 14914, 15667, 16407, 17135, 17850, 18551, 19239, 19912, 20571, 21214, 21842, 22454, 23050, 23629,
    24192, 24737, 25265, 25776, 26269, 26744, 27200, 27639, 28059, 28461, 28844, 29209, 29555, 29883, 30192, 30483,
    30755, 31009, 31245, 31463, 31664, 31846, 32012, 32160, 32291, 32405, 32503, 32586, 32652, 32703, 32739, 32760,
    32767, 32760, 32740, 32707, 32661, 32603, 32533, 32452, 32361, 32259, 32147, 32027, 31897, 31760, 31614, 31462,
    31303, 31138, 30967, 30792, 30611, 30427, 30239, 30049, 29856, 29660, 29464, 29266, 29068, 28870, 28672, 28476,
    28280, 28087, 27895, 27707, 27521, 27339, 27160, 26986, 26816, 26650, 26490, 26336, 26187, 26044, 25907, 25776,
    25652, 25535, 25425, 25322, 25227, 25139, 25058, 24985, 24919, 24862, 24812, 24769, 24735, 24708, 24689, 24678,
    24674, 24678, 24689, 24707, 24733, 24766, 24805, 24851, 24904, 24963, 25028, 25099, 25175, 25257, 25344, 25436,
    25533, 25634, 25739, 25848, 25960, 26076, 26194, 26315, 26439, 26564, 26691, 26819, 26948, 27078, 27209, 27339,
    27469, 27599, 27728, 27855, 27982, 28106, 28229, 28349, 28467, 28582, 28694, 28802, 28908, 29009, 29106, 29200,
    29289, 29373, 29453, 29527, 29597, 29662, 29721, 29775, 29824, 29867, 29904, 29936, 29962, 29982, 29996, 30005,
    30008, 30005, 29996, 29982, 29962, 29937, 29906, 29870, 29829, 29782, 29731, 29674, 29613, 29548, 29478, 29404,
    29326, 29244, 29159, 29071, 28979, 28884, 28787, 28687, 28585, 28481, 28376, 28269, 28161, 28052, 27942, 27832,
    27722, 27611, 27502, 27393, 27285, 27178, 27072, 26968, 26866, 26766, 26669, 26574, 26482, 26393, 26307, 26225,
    26146, 26071, 26001, 25934, 25871, 25813, 25760, 25711, 25668, 25629, 25595, 25566, 25542, 25524, 25510, 25502,
    25500, 25502, 25510, 25524, 25542, 25566, 25595, 25629, 25668, 25711, 25760, 25813, 25871, 25934, 26001, 26071,
    26146, 26225, 26307, 26393, 26482, 26574, 26669, 26766, 26866, 26968, 27072, 27178, 27285, 27393, 27502, 27611,
    27722, 27832, 27942, 28052, 28161, 28269, 28376, 28481, 28585, 28687, 28787, 28884, 28979, 29071, 29159, 29244,
    29326, 29404, 29478, 29548, 29613, 29674, 29731, 29782, 29829, 29870, 29906, 29937, 29962, 29982, 29996, 30005,
    30008, 30005, 29996, 29982, 29962, 29936, 29904, 29867, 29824, 29775, 29721, 29662, 29597, 29527, 29453, 29373,
    29289, 29200, 29106, 29009, 28908, 28802, 28694, 28582, 28467, 28349, 28229, 28106, 27982, 27855, 27728, 27599,
    27469, 27339, 27209, 27078, 26948, 26819, 26691, 26564, 26439, 26315, 26194, 26076, 25960, 25848, 25739, 25634,
    25533, 25436, 25344, 25257, 25175, 25099, 25028, 24963, 24904, 24851, 24805, 24766, 24733, 24707, 24689, 24678,
    24674, 24678, 24689, 24708, 24735, 24769, 24812, 24862, 24919, 24985, 25058, 25139, 25227, 25322, 25425, 25535,
    25652, 25776, 25907, 26044, 26187, 26336, 26490, 26650, 26816, 26986, 27160, 27339, 27521, 27707, 27895, 28087,
    28280, 28476, 28672, 28870, 29068, 29266, 29464, 29660, 29856, 30049, 30239, 30427, 30611, 30792, 30967, 31138,
    31303, 31462, 31614, 31760, 31897, 32027, 32147, 32259, 32361, 32452, 32533, 32603, 32661, 32707, 32740, 32760,
    32767, 32760, 32739, 32703, 32652, 32586, 32503, 32405, 32291, 32160, 32012, 31846, 31664, 31463, 31245, 31009,
    30755, 30483, 30192, 29883, 29555, 29209, 28844, 28461, 28059, 27639, 27200, 26744, 26269, 25776, 25265, 24737,
    24192, 23629, 23050, 22454, 21842, 21214, 20571, 19912, 19239, 18551, 17850, 17135, 16407, 15667, 14914, 14151,
    13376, 12592, 11797, 10993, 10181, 9361, 8534, 7699, 6859, 6014, 5163, 4309, 3451, 2591, 1728, 865,
    0, -865, -1728, -2591, -3451, -4309, -5163, -6014, -6859, -7699, -8534, -9361, -10181, -10993, -11797, -12592,
    -13376, -14151, -14914, -15667, -16407, -17135, -17850, -18551, -19239, -19912, -20571, -21214, -21842, -22454, -23050, -23629,
    -24192, -24737, -25265, -25776, -26269, -26744, -27200, -27639, -28059, -28461, -28844, -29209, -29555, -29883, -30192, -30483,
    -30755, -31009, -31245, -31463, -31664, -31846, -32012, -32160, -32291, -32405, -32503, -32586, -32652, -32703, -32739, -32760,
    -32767, -32760, -32740, -32707, -32661, -32603, -32533, -32452, -32361, -32259, -32147, -32027, -31897, -31760, -31614, -31462,
    -31303, -31138, -30967, -30792, -30611, -30427, -30239, -30049, -29856, -29660, -29464, -29266, -29068, -28870, -28672, -28476,
    -28280, -28087, -27895, -27707, -27521, -27339, -27160, -26986, -26816, -26650, -26490, -26336, -26187, -26044, -25907, -25776,
    -25652, -25535, -25425, -25322, -25227, -25139, -25058, -24985, -24919, -24862, -24812, -24769, -24735, -24708, -24689, -24678,
    -24674, -24678, -24689, -24707, -24733, -24766, -24805, -24851, -24904, -24963, -25028, -25099, -25175, -25257, -25344, -25436,
    -25533, -25634, -25739, -25848, -25960, -26076, -26194, -26315, -26439, -26564, -26691, -26819, -26948, -27078, -27209, -27339,
    -27469, -27599, -27728, -27855, -27982, -28106, -28229, -28349, -28467, -28582, -28694, -28802, -28908, -29009, -29106, -29200,
    -29289, -29373, -29453, -29527, -29597, -29662, -29721, -29775, -29824, -29867, -29904, -29936, -29962, -29982, -29996, -30005,
    -30008, -30005, -29996, -29982, -29962, -29937, -29906, -29870, -29829, -29782, -29731, -29674, -29613, -29548, -29478, -29404,
    -29326, -29244, -29159, -29071, -28979, -28884, -28787, -28687, -28585, -28481, -28376, -28269, -28161, -28052, -27942, -27832,
    -27722, -27611, -27502, -27393, -27285, -27178, -27072, -26968, -26866, -26766, -26669, -26574, -26482, -26393, -26307, -26225,
    -26146, -26071, -26001, -25934, -25871, -25813, -25760, -25711, -25668, -25629, -25595, -25566, -25542, -25524, -25510, -25502,
    -25500, -25502, -25510, -25524, -25542, -25566, -25595, -25629, -25668, -25711, -25760, -25813, -25871, -25934, -26001, -26071,
    -26146, -26225, -26307, -26393, -26482, -26574, -26669, -26766, -26866, -26968, -27072, -27178, -27285, -27393, -27502, -27611,
    -27722, -27832, -27942, -28052, -28161, -28269, -28376, -28481, -28585, -28687, -28787, -28884, -28979, -29071, -29159, -29244,
    -29326, -29404, -29478, -29548, -29613, -29674, -29731, -29782, -29829, -29870, -29906, -29937, -29962, -29982, -29996, -30005,
    -30008, -30005, -29996, -29982, -29962, -29936, -29904, -29867, -29824, -29775, -29721, -29662, -29597, -29527, -29453, -29373,
    -29289, -29200, -29106, -29009, -28908, -28802, -28694, -28582, -28467, -28349, -28229, -28106, -27982, -27855, -27728, -27599,
    -27469, -27339, -27209, -27078, -26948, -26819, -26691, -26564, -26439, -26315, -26194, -26076, -25960, -25848, -25739, -25634,
    -25533, -25436, -25344, -25257, -25175, -25099, -25028, -24963, -24904, -24851, -24805, -24766, -24733, -24707, -24689, -24678,
    -24674, -24678, -24689, -24708, -24735, -24769, -24812, -24862, -24919, -24985, -25058, -25139, -25227, -25322, -25425, -25535,
    -25652, -25776, -25907, -26044, -26187, -26336, -26490, -26650, -26816, -26986, -27160, -27339, -27521, -27707, -27895, -28087,
    -28280, -28476, -28672, -28870, -29068, -29266, -29464, -29660, -29856, -30049, -30239, -30427, -30611, -30792, -30967, -31138,
    -31303, -31462, -31614, -31760, -31897, -32027, -32147, -32259, -32361, -32452, -32533, -32603, -32661, -32707, -32740, -32760,
    -32767, -32760, -32739, -32703, -32652, -32586, -32503, -32405, -32291, -32160, -32012, -31846, -31664, -31463, -31245, -31009,
    -30755, -30483, -30192, -29883, -29555, -29209, -28844, -28461, -28059, -27639, -27200, -26744, -26269, -25776, -25265, -24737,
    -24192, -23629, -23050, -22454, -21842, -21214, -20571, -19912, -19239, -18551, -17850, -17135, -16407, -15667, -14914, -14151,
    -13376, -12592, -11797, -10993, -10181, -9361, -8534, -7699, -6859, -6014, -5163, -4309, -3451, -2591, -1728, -865,
];

/// Band 7 of the band-limited square wave.
#[verifier::opaque]
pub const SQUARE_BAND_7: [i16; 1024] = [
    0, 426, 853, 1279, 1705, 2131, 2556, 2981, 3405, 3829, 4252, 4674, 5095, 5515, 5934, 6353,
    6769, 7185, 7599, 8012, 8424, 8833, 9242, 9648, 10053, 10456, 10856, 11255, 11652, 12046, 12439, 12829,
    13217, 13602, 13984, 14365, 14742, 15117, 15489, 15858, 16225, 16588, 16948, 17306, 17660, 18011, 18359, 18703,
    19044, 19382, 19716, 20046, 20374, 20697, 21017, 21333, 21645, 21954, 22258, 22559, 22856, 23149, 23438, 23722,
    24003, 24280, 24552, 24820, 25084, 25344, 25599, 25850, 26097, 26340, 26578, 26811, 27040, 27265, 27485, 27701,
    27912, 28119, 28321, 28519, 28712, 28900, 29084, 29264, 29438, 29609, 29774, 29935, 30091, 30243, 30390, 30533,
    30671, 30804, 30933, 31058, 31177, 31292, 31403, 31509, 31611, 31708, 31801, 31889, 31973, 32053, 32128, 32199,
    32265, 32327, 32385, 32439, 32488, 32534, 32575, 32612, 32645, 32674, 32699, 32720, 32737, 32750, 32760, 32765,
    32767, 32765, 32760, 32751, 32738, 32722, 32702, 32679, 32653, 32623, 32590, 32554, 32514, 32472, 32427, 32378,
    32327, 32273, 32216, 32156, 32093, 32028, 31961, 31891, 31818, 31743, 31666, 31586, 31505, 31421, 31335, 31247,
    31158, 31066, 30973, 30877, 30781, 30682, 30583, 30481, 30379, 30274, 30169, 30063, 29955, 29847, 29737, 29627,
    29515, 29403, 29291, 29177, 29063, 28949, 28834, 28718, 28603, 28487, 28371, 28255, 28139, 28023, 27907, 27791,
    27676, 27561, 27446, 27331, 27217, 27104, 26991, 26879, 26767, 26657, 26547, 26438, 26330, 26223, 26117, 26012,
    25909, 25806, 25705, 25606, 25507, 25411, 25315, 25221, 25129, 25039, 24950, 24863, 24777, 24694, 24612, 24532,
    24454, 24378, 24305, 24233, 24163, 24096, 24030, 23967, 23906, 23847, 23791, 23736, 23685, 23635, 23588, 23543,
    23501, 23461, 23424, 23389, 23357, 23327, 23300, 23275, 23253, 23234, 23217, 23202, 23191, 23182, 23175, 23171,
    23170, 23171, 23175, 23182, 23191, 23202, 23217, 23234, 23253, 23275, 23300, 23327, 23357, 23389, 23424, 23461,
    23501, 23543, 23588, 23635, 23685, 23736, 23791, 23847, 23906, 23967, 24030, 24096, 24163, 24233, 24305, 24378,
    24454, 24532, 24612, 24694, 24777, 24863, 24950, 25039, 25129, 25221, 25315, 25411, 25507, 25606, 25705, 25806,
    25909, 26012, 26117, 26223, 26330, 26438, 26547, 26657, 26767, 26879, 26991, 27104, 27217, 27331, 27446, 27561,
    27676, 27791, 27907, 28023, 28139, 28255, 28371, 28487, 28603, 28718, 28834, 28949, 29063, 29177, 29291, 29403,
    29515, 29627, 29737, 29847, 29955, 30063, 30169, 30274, 30379, 30481, 30583, 30682, 30781, 30877, 30973, 31066,
    31158, 31247, 31335, 31421, 31505, 31586, 31666, 31743, 31818, 31891, 31961, 32028, 32093, 32156, 32216, 32273,
    32327, 32378, 32427, 32472, 32514, 32554, 32590, 32623, 32653, 32679, 32702, 32722, 32738, 32751, 32760, 32765,
    32767, 32765, 32760, 32750, 32737, 32720, 32699, 32674, 32645, 32612, 32575, 32534, 32488, 32439, 32385, 32327,
    32265, 32199, 32128, 32053, 31973, 31889, 31801, 31708, 31611, 31509, 31403, 31292, 31177, 31058, 30933, 30804,
    30671, 30533, 30390, 30243, 30091, 29935, 29774, 29609, 29438, 29264, 29084, 28900, 28712, 28519, 28321, 28119,
    27912, 27701, 27485, 27265, 27040, 26811, 26578, 26340, 26097, 25850, 25599, 25344, 25084, 24820, 24552, 24280,
    24003, 23722, 23438, 23149, 22856, 22559, 22258, 21954, 21645, 21333, 21017, 20697, 20374, 20046, 19716, 19382,
    19044, 18703, 18359, 18011, 17660, 17306, 16948, 16588, 16225, 15858, 15489, 15117, 14742, 14365, 13984, 13602,
    13217, 12829, 12439, 12046, 11652, 11255, 10856, 10456, 10053, 9648, 9242, 8833, 8424, 8012, 7599, 7185,
    6769, 6353, 5934, 5515, 5095, 4674, 4252, 3829, 3405, 2981, 2556, 2131, 1705, 1279, 853, 426,
    0, -426, -853, -1279, -1705, -2131, -2556, -2981, -3405, -3829, -4252, -4674, -5095, -5515, -5934, -6353,
    -6769, -7185, -7599, -8012, -8424, -8833, -9242, -9648, -10053, -10456, -10856, -11255, -11652, -12046, -12439, -12829,
    -13217, -13602, -13984, -14365, -14742, -15117, -15489, -15858, -16225, -16588, -16948, -17306, -17660, -18011, -18359, -18703,
    -19044, -19382, -19716, -20046, -20374, -20697, -21017, -21333, -21645, -21954, -22258, -22559, -22856, -23149, -23438, -23722,
    -24003, -24280, -24552, -24820, -25084, -25344, -25599, -25850, -26097, -26340, -26578, -26811, -27040, -27265, -27485, -27701,
    -27912, -28119, -28321, -28519, -28712, -28900, -29084, -29264, -29438, -29609, -29774, -29935, -30091, -30243, -30390, -30533,
    -30671, -30804, -30933, -31058, -31177, -31292, -31403, -31509, -31611, -31708, -31801, -31889, -31973, -32053, -32128, -32199,
    -32265, -32327, -32385, -32439, -32488, -32534, -32575, -32612, -32645, -32674, -32699, -32720, -32737, -32750, -32760, -32765,
    -32767, -32765, -32760, -32751, -32738, -32722, -32702, -32679, -32653, -32623, -32590, -32554, -32514, -32472, -32427, -32378,
    -32327, -32273, -32216, -32156, -32093, -32028, -31961, -31891, -31818, -31743, -31666, -31586, -31505, -31421, -31335, -31247,
    -31158, -31066, -30973, -30877, -30781, -30682, -30583, -30481, -30379, -30274, -30169, -30063, -29955, -29847, -29737, -29627,
    -29515, -29403, -29291, -29177, -29063, -28949, -28834, -28718, -28603, -28487, -28371, -28255, -28139, -28023, -27907, -27791,
    -27676, -27561, -27446, -27331, -27217, -27104, -26991, -26879, -26767, -26657, -26547, -26438, -26330, -26223, -26117, -26012,
    -25909, -25806, -25705, -25606, -25507, -25411, -25315, -25221, -25129, -25039, -24950, -24863, -24777, -24694, -24612, -24532,
    -24454, -24378, -24305, -24233, -24163, -24096, -24030, -23967, -23906, -23847, -23791, -23736, -23685, -23635, -23588, -23543,
    -23501, -23461, -23424, -23389, -23357, -23327, -23300, -23275, -23253, -23234, -23217, -23202, -23191, -23182, -23175, -23171,
    -23170, -23171, -23175, -23182, -23191, -23202, -23217, -23234, -23253, -23275, -23300, -23327, -23357, -23389, -23424, -23461,
    -23501, -23543, -23588, -23635, -23685, -23736, -23791, -23847, -23906, -23967, -24030, -24096, -24163, -24233, -24305, -24378,
    -24454, -24532, -24612, -24694, -24777, -24863, -24950, -25039, -25129, -25221, -25315, -25411, -25507, -25606, -25705, -25806,
    -25909, -26012, -26117, -26223, -26330, -26438, -26547, -26657, -26767, -26879, -26991, -27104, -27217, -27331, -27446, -27561,
    -27676, -27791, -27907, -28023, -28139, -28255, -28371, -28487, -28603, -28718, -28834, -28949, -29063, -29177, -29291, -29403,
    -29515, -29627, -29737, -29847, -29955, -30063, -30169, -30274, -30379, -30481, -30583, -30682, -30781, -30877, -30973, -31066,
    -31158, -31247, -31335, -31421, -31505, -31586, -31666, -31743, -31818, -31891, -31961, -32028, -32093, -32156, -32216, -32273,
    -32327, -32378, -32427, -32472, -32514, -32554, -32590, -32623, -32653, -32679, -32702, -32722, -32738, -32751, -32760, -32765,
    -32767, -32765, -32760, -32750, -32737, -32720, -32699, -32674, -32645, -32612, -32575, -32534, -32488, -32439, -32385, -32327,
    -32265, -32199, -32128, -32053, -31973, -31889, -31801, -31708, -31611, -31509, -31403, -31292, -31177, -31058, -30933, -30804,
    -30671, -30533, -30390, -30243, -30091, -29935, -29774, -29609, -29438, -29264, -29084, -28900, -28712, -28519, -28321, -28119,
    -27912, -27701, -27485, -27265, -27040, -26811, -26578, -26340, -26097, -25850, -25599, -25344, -25084, -24820, -24552, -24280,
    -24003, -23722, -23438, -23149, -22856, -22559, -22258, -21954, -21645, -21333, -21017, -20697, -20374, -20046, -19716, -19382,
    -19044, -18703, -18359, -18011, -17660, -17306, -16948, -16588, -16225, -15858, -15489, -15117, -14742, -14365, -13984, -13602,
    -13217, -12829, -12439, -12046, -11652, -11255, -10856, -10456, -10053, -9648, -9242, -8833, -8424, -8012, -7599, -7185,
    -6769, -6353, -5934, -5515, -5095, -4674, -4252, -3829, -3405, -2981, -2556, -2131, -1705, -1279, -853, -426,
];

/// Band 8 of the band-limited square wave.
#[verifier::opaque]
pub const SQUARE_BAND_8: [i16; 1024] = [
    0, 201, 402, 603, 804, 1005, 1206, 1407, 1608, 1809, 2009, 2210, 2410, 2611, 2811, 3012,
    3212, 3412, 3612, 3811, 4011, 4210, 4410, 4609, 4808, 5007, 5205, 5404, 5602, 5800, 5998, 6195,
    6393, 6590, 6786, 6983, 7179, 7375, 7571, 7767, 7962, 8157, 8351, 8545, 8739, 8933, 9126, 9319,
    9512, 9704, 9896, 10087, 10278, 10469, 10659, 10849, 11039, 11228, 11417, 11605, 11793, 11980, 12167, 12353,
    12539, 12725, 12910, 13094, 13279, 13462, 13645, 13828, 14010, 14191, 14372, 14553, 14732, 14912, 15090, 15269,
    15446, 15623, 15800, 15976, 16151, 16325, 16499, 16673, 16846, 17018, 17189, 17360, 17530, 17700, 17869, 18037,
    18204, 18371, 18537, 18703, 18868, 19032, 19195, 19357, 19519, 19680, 19841, 20000, 20159, 20317, 20475, 20631,
    20787, 20942, 21096, 21250, 21403, 21554, 21705, 21856, 22005, 22154, 22301, 22448, 22594, 22739, 22884, 23027,
    23170, 23311, 23452, 23592, 23731, 23870, 24007, 24143, 24279, 24413, 24547, 24680, 24811, 24942, 25072, 25201,
    25329, 25456, 25582, 25708, 25832, 25955, 26077, 26198, 26319, 26438, 26556, 26674, 26790, 26905, 27019, 27133,
    27245, 27356, 27466, 27575, 27683, 27790, 27896, 28001, 28105, 28208, 28310, 28411, 28510, 28609, 28706, 28803,
    28898, 28992, 29085, 29177, 29268, 29358, 29447, 29534, 29621, 29706, 29791, 29874, 29956, 30037, 30117, 30195,
    30273, 30349, 30424, 30498, 30571, 30643, 30714, 30783, 30852, 30919, 30985, 31050, 31113, 31176, 31237, 31297,
    31356, 31414, 31470, 31526, 31580, 31633, 31685, 31736, 31785, 31833, 31880, 31926, 31971, 32014, 32057, 32098,
    32137, 32176, 32213, 32250, 32285, 32318, 32351, 32382, 32412, 32441, 32469, 32495, 32521, 32545, 32567, 32589,
    32609, 32628, 32646, 32663, 32678, 32692, 32705, 32717, 32728, 32737, 32745, 32752, 32757, 32761, 32765, 32766,
    32767, 32766, 32765, 32761, 32757, 32752, 32745, 32737, 32728, 32717, 32705, 32692, 32678, 32663, 32646, 32628,
    32609, 32589, 32567, 32545, 32521, 32495, 32469, 32441, 32412, 32382, 32351, 32318, 32285, 32250, 32213, 32176,
    32137, 32098, 32057, 32014, 31971, 31926, 31880, 31833, 31785, 31736, 31685, 31633, 31580, 31526, 31470, 31414,
    31356, 31297, 31237, 31176, 31113, 31050, 30985, 30919, 30852, 30783, 30714, 30643, 30571, 30498, 30424, 30349,
    30273, 30195, 30117, 30037, 29956, 29874, 29791, 29706, 29621, 29534, 29447, 29358, 29268, 29177, 29085, 28992,
    28898, 28803, 28706, 28609, 28510, 28411, 28310, 28208, 28105, 28001, 27896, 27790, 27683, 27575, 27466, 27356,
    27245, 27133, 27019, 26905, 26790, 26674, 26556, 26438, 26319, 26198, 26077, 25955, 25832, 25708, 25582, 25456,
    25329, 25201, 25072, 24942, 24811, 24680, 24547, 24413, 24279, 24143, 24007, 23870, 23731, 23592, 23452, 23311,
    23170, 23027, 22884, 22739, 22594, 22448, 22301, 22154, 22005, 21856, 21705, 21554, 21403, 21250, 21096, 20942,
    20787, 20631, 20475, 20317, 20159, 20000, 19841, 19680, 19519, 19357, 19195, 19032, 18868, 18703, 18537, 18371,
    18204, 18037, 17869, 17700, 17530, 17360, 17189, 17018, 16846, 16673, 16499, 16325, 16151, 15976, 15800, 15623,
    15446, 15269, 15090, 14912, 14732, 14553, 14372, 14191, 14010, 13828, 13645, 13462, 13279, 13094, 12910, 12725,
    12539, 12353, 12167, 11980, 11793, 11605, 11417, 11228, 11039, 10849, 10659, 10469, 10278, 10087, 9896, 9704,
    9512, 9319, 9126, 8933, 8739, 8545, 8351, 8157, 7962, 7767, 7571, 7375, 7179, 6983, 6786, 6590,
    6393, 6195, 5998, 5800, 5602, 5404, 5205, 5007, 4808, 4609, 4410, 4210, 4011, 3811, 3612, 3412,
    3212, 3012, 2811, 2611, 2410, 2210, 2009, 1809, 1608, 1407, 1206, 1005, 804, 603, 402, 201,
    0, -201, -402, -603, -804, -1005, -1206, -1407, -1608, -1809, -2009, -2210, -2410, -2611, -2811, -3012,
    -3212, -3412, -3612, -3811, -4011, -4210, -4410, -4609, -4808, -5007, -5205, -5404, -5602, -5800, -5998, -6195,
    -6393, -6590, -6786, -6983, -7179, -7375, -7571, -7767, -7962, -8157, -8351, -8545, -8739, -8933, -9126, -9319,
    -9512, -9704, -9896, -10087, -10278, -10469, -10659, -10849, -11039, -11228, -11417, -11605, -11793, -11980, -12167, -12353,
    -12539, -12725, -12910, -13094, -13279, -13462, -13645, -13828, -14010, -14191, -14372, -14553, -14732, -14912, -15090, -15269,
    -15446, -15623, -15800, -15976, -16151, -16325, -16499, -16673, -16846, -17018, -17189, -17360, -17530, -17700, -17869, -18037,
    -18204, -18371, -18537, -18703, -18868, -19032, -19195, -19357, -19519, -19680, -19841, -20000, -20159, -20317, -20475, -20631,
    -20787, -20942, -21096, -21250, -21403, -21554, -21705, -21856, -22005, -22154, -22301, -22448, -22594, -22739, -22884, -23027,
    -23170, -23311, -23452, -23592, -23731, -23870, -24007, -24143, -24279, -24413, -24547, -24680, -24811, -24942, -25072, -25201,
    -25329, -25456, -25582, -25708, -25832, -25955, -26077, -26198, -26319, -26438, -26556, -26674, -26790, -26905, -27019, -27133,
    -27245, -27356, -27466, -27575, -27683, -27790, -27896, -28001, -28105, -28208, -28310, -28411, -28510, -28609, -28706, -28803,
    -28898, -28992, -29085, -29177, -29268, -29358, -29447, -29534, -29621, -29706, -29791, -29874, -29956, -30037, -30117, -30195,
    -30273, -30349, -30424, -30498, -30571, -30643, -30714, -30783, -30852, -30919, -30985, -31050, -31113, -31176, -31237, -31297,
    -31356, -31414, -31470, -31526, -31580, -31633, -31685, -31736, -31785, -31833, -31880, -31926, -31971, -32014, -32057, -32098,
    -32137, -32176, -32213, -32250, -32285, -32318, -32351, -32382, -32412, -32441, -32469, -32495, -32521, -32545, -32567, -32589,
    -32609, -32628, -32646, -32663, -32678, -32692, -32705, -32717, -32728, -32737, -32745, -32752, -32757, -32761, -32765, -32766,
    -32767, -32766, -32765, -32761, -32757, -32752, -32745, -32737, -32728, -32717, -32705, -32692, -32678, -32663, -32646, -32628,
    -32609, -32589, -32567, -32545, -32521, -32495, -32469, -32441, -32412, -32382, -32351, -32318, -32285, -32250, -32213, -32176,
    -32137, -32098, -32057, -32014, -31971, -31926, -31880, -31833, -31785, -31736, -31685, -31633, -31580, -31526, -31470, -31414,
    -31356, -31297, -31237, -31176, -31113, -31050, -30985, -30919, -30852, -30783, -30714, -30643, -30571, -30498, -30424, -30349,
    -30273, -30195, -30117, -30037, -29956, -29874, -29791, -29706, -29621, -29534, -29447, -29358, -29268, -29177, -29085, -28992,
    -28898, -28803, -28706, -28609, -28510, -28411, -28310, -28208, -28105, -28001, -27896, -27790, -27683, -27575, -27466, -27356,
    -27245, -27133, -27019, -26905, -26790, -26674, -26556, -26438, -26319, -26198, -26077, -25955, -25832, -25708, -25582, -25456,
    -25329, -25201, -25072, -24942, -24811, -24680, -24547, -24413, -24279, -24143, -24007, -23870, -23731, -23592, -23452, -23311,
    -23170, -23027, -22884, -22739, -22594, -22448, -22301, -22154, -22005, -21856, -21705, -21554, -21403, -21250, -21096, -20942,
    -20787, -20631, -20475, -20317, -20159, -20000, -19841, -19680, -19519, -19357, -19195, -19032, -18868, -18703, -18537, -18371,
    -18204, -18037, -17869, -17700, -17530, -17360, -17189, -17018, -16846, -16673, -16499, -16325, -16151, -15976, -15800, -15623,
    -15446, -15269, -15090, -14912, -14732, -14553, -14372, -14191, -14010, -13828, -13645, -13462, -13279, -13094, -12910, -12725,
    -12539, -12353, -12167, -11980, -11793, -11605, -11417, -11228, -11039, -10849, -10659, -10469, -10278, -10087, -9896, -9704,
    -9512, -9319, -9126, -8933, -8739, -8545, -8351, -8157, -7962, -7767, -7571, -7375, -7179, -6983, -6786, -6590,
    -6393, -6195, -5998, -5800, -5602, -5404, -5205, -5007, -4808, -4609, -4410, -4210, -4011, -3811, -3612, -3412,
    -3212, -3012, -2811, -2611, -2410, -2210, -2009, -1809, -1608, -1407, -1206, -1005, -804, -603, -402, -201,
];

/// Band 9 of the band-limited square wave.
#[verifier::opaque]
pub const SQUARE_BAND_9: [i16; 1024] = [
    0, 201, 402, 603, 804, 1005, 1206, 1407, 1608, 1809, 2009, 2210, 2410, 2611, 2811, 3012,
    3212, 3412, 3612, 3811, 4011, 4210, 4410, 4609, 4808, 5007, 5205, 5404, 5602, 5800, 5998, 6195,
    6393, 6590, 6786, 6983, 7179, 7375, 7571, 7767, 7962, 8157, 8351, 8545, 8739, 8933, 9126, 9319,
    9512, 9704, 9896, 10087, 10278, 10469, 10659, 10849, 11039, 11228, 11417, 11605, 11793, 11980, 12167, 12353,
    12539, 12725, 12910, 13094, 13279, 13462, 13645, 13828, 14010, 14191, 14372, 14553, 14732, 14912, 15090, 15269,
    15446, 15623, 15800, 15976, 16151, 16325, 16499, 16673, 16846, 17018, 17189, 17360, 17530, 17700, 17869, 18037,
    18204, 18371, 18537, 18703, 18868, 19032, 19195, 19357, 19519, 19680, 19841, 20000, 20159, 20317, 20475, 20631,
    20787, 20942, 21096, 21250, 21403, 21554, 21705, 21856, 22005, 22154, 22301, 22448, 22594, 22739, 22884, 23027,
    23170, 23311, 23452, 23592, 23731, 23870, 24007, 24143, 24279, 24413, 24547, 24680, 24811, 24942, 25072, 25201,
    25329, 25456, 25582, 25708, 25832, 25955, 26077, 26198, 26319, 26438, 26556, 26674, 26790, 26905, 27019, 27133,
    27245, 27356, 27466, 27575, 27683, 27790, 27896, 28001, 28105, 28208, 28310, 28411, 28510, 28609, 28706, 28803,
    28898, 28992, 29085, 29177, 29268, 29358, 29447, 29534, 29621, 29706, 29791, 29874, 29956, 30037, 30117, 30195,
    30273, 30349, 30424, 30498, 30571, 30643, 30714, 30783, 30852, 30919, 30985, 31050, 31113, 31176, 31237, 31297,
    31356, 31414, 31470, 31526, 31580, 31633, 31685, 31736, 31785, 31833, 31880, 31926, 31971, 32014, 32057, 32098,
    32137, 32176, 32213, 32250, 32285, 32318, 32351, 32382, 32412, 32441, 32469, 32495, 32521, 32545, 32567, 32589,
    32609, 32628, 32646, 32663, 32678, 32692, 32705, 32717, 32728, 32737, 32745, 32752, 32757, 32761, 32765, 32766,
    32767, 32766, 32765, 32761, 32757, 32752, 32745, 32737, 32728, 32717, 32705, 32692, 32678, 32663, 32646, 32628,
    32609, 32589, 32567, 32545, 32521, 32495, 32469, 32441, 32412, 32382, 32351, 32318, 32285, 32250, 32213, 32176,
    32137, 32098, 32057, 32014, 31971, 31926, 31880, 31833, 31785, 31736, 31685, 31633, 31580, 31526, 31470, 31414,
    31356, 31297, 31237, 31176, 31113, 31050, 30985, 30919, 30852, 30783, 30714, 30643, 30571, 30498, 30424, 30349,
    30273, 30195, 30117, 30037, 29956, 29874, 29791, 29706, 29621, 29534, 29447, 29358, 29268, 29177, 29085, 28992,
    28898, 28803, 28706, 28609, 28510, 28411, 28310, 28208, 28105, 28001, 27896, 27790, 27683, 27575, 27466, 27356,
    27245, 27133, 27019, 26905, 26790, 26674, 26556, 26438, 26319, 26198, 26077, 25955, 25832, 25708, 25582, 25456,
    25329, 25201, 25072, 24942, 24811, 24680, 24547, 24413, 24279, 24143, 24007, 23870, 23731, 23592, 23452, 23311,
    23170, 23027, 22884, 22739, 22594, 22448, 22301, 22154, 22005, 21856, 21705, 21554, 21403, 21250, 21096, 20942,
    20787, 20631, 20475, 20317, 20159, 20000, 19841, 19680, 19519, 19357, 19195, 19032, 18868, 18703, 18537, 18371,
    18204, 18037, 17869, 17700, 17530, 17360, 17189, 17018, 16846, 16673, 16499, 16325, 16151, 15976, 15800, 15623,
    15446, 15269, 15090, 14912, 14732, 14553, 14372, 14191, 14010, 13828, 13645, 13462, 13279, 13094, 12910, 12725,
    12539, 12353, 12167, 11980, 11793, 11605, 11417, 11228, 11039, 10849, 10659, 10469, 10278, 10087, 9896, 9704,
    9512, 9319, 9126, 8933, 8739, 8545, 8351, 8157, 7962, 7767, 7571, 7375, 7179, 6983, 6786, 6590,
    6393, 6195, 5998, 5800, 5602, 5404, 5205, 5007, 4808, 4609, 4410, 4210, 4011, 3811, 3612, 3412,
    3212, 3012, 2811, 2611, 2410, 2210, 2009, 1809, 1608, 1407, 1206, 1005, 804, 603, 402, 201,
    0, -201, -402, -603, -804, -1005, -1206, -1407, -1608, -1809, -2009, -2210, -2410, -2611, -2811, -3012,
    -3212, -3412, -3612, -3811, -4011, -4210, -4410, -4609, -4808, -5007, -5205, -5404, -5602, -5800, -5998, -6195,
    -6393, -6590, -6786, -6983, -7179, -7375, -7571, -7767, -7962, -8157, -8351, -8545, -8739, -8933, -9126, -9319,
    -9512, -9704, -9896, -10087, -10278, -10469, -10659, -10849, -11039, -11228, -11417, -11605, -11793, -11980, -12167, -12353,
    -12539, -12725, -12910, -13094, -13279, -13462, -13645, -13828, -14010, -14191, -14372, -14553, -14732, -14912, -15090, -15269,
    -15446, -15623, -15800, -15976, -16151, -16325, -16499, -16673, -16846, -17018, -17189, -17360, -17530, -17700, -17869, -18037,
    -18204, -18371, -18537, -18703, -18868, -19032, -19195, -19357, -19519, -19680, -19841, -20000, -20159, -20317, -20475, -20631,
    -20787, -20942, -21096, -21250, -21403, -21554, -21705, -21856, -22005, -22154, -22301, -22448, -22594, -22739, -22884, -23027,
    -23170, -23311, -23452, -23592, -23731, -23870, -24007, -24143, -24279, -24413, -24547, -24680, -24811, -24942, -25072, -25201,
    -25329, -25456, -25582, -25708, -25832, -25955, -26077, -26198, -26319, -26438, -26556, -26674, -26790, -26905, -27019, -27133,
    -27245, -27356, -27466, -27575, -27683, -27790, -27896, -28001, -28105, -28208, -28310, -28411, -28510, -28609, -28706, -28803,
    -28898, -28992, -29085, -29177, -29268, -29358, -29447, -29534, -29621, -29706, -29791, -29874, -29956, -30037, -30117, -30195,
    -30273, -30349, -30424, -30498, -30571, -30643, -30714, -30783, -30852, -30919, -30985, -31050, -31113, -31176, -31237, -31297,
    -31356, -31414, -31470, -31526, -31580, -31633, -31685, -31736, -31785, -31833, -31880, -31926, -31971, -32014, -32057, -32098,
    -32137, -32176, -32213, -32250, -32285, -32318, -32351, -32382, -32412, -32441, -32469, -32495, -32521, -32545, -32567, -32589,
    -32609, -32628, -32646, -32663, -32678, -32692, -32705, -32717, -32728, -32737, -32745, -32752, -32757, -32761, -32765, -32766,
    -32767, -32766, -32765, -32761, -32757, -32752, -32745, -32737, -32728, -32717, -32705, -32692, -32678, -32663, -32646, -32628,
    -32609, -32589, -32567, -32545, -32521, -32495, -32469, -32441, -32412, -32382, -32351, -32318, -32285, -32250, -32213, -32176,
    -32137, -32098, -32057, -32014, -31971, -31926, -31880, -31833, -31785, -31736, -31685, -31633, -31580, -31526, -31470, -31414,
    -31356, -31297, -31237, -31176, -31113, -31050, -30985, -30919, -30852, -30783, -30714, -30643, -30571, -30498, -30424, -30349,
    -30273, -30195, -30117, -30037, -29956, -29874, -29791, -29706, -29621, -29534, -29447, -29358, -29268, -29177, -29085, -28992,
    -28898, -28803, -28706, -28609, -28510, -28411, -28310, -28208, -28105, -28001, -27896, -27790, -27683, -27575, -27466, -27356,
    -27245, -27133, -27019, -26905, -26790, -26674, -26556, -26438, -26319, -26198, -26077, -25955, -25832, -25708, -25582, -25456,
    -25329, -25201, -25072, -24942, -24811, -24680, -24547, -24413, -24279, -24143, -24007, -23870, -23731, -23592, -23452, -23311,
    -23170, -23027, -22884, -22739, -22594, -22448, -22301, -22154, -22005, -21856, -21705, -21554, -21403, -21250, -21096, -20942,
    -20787, -20631, -20475, -20317, -20159, -20000, -19841, -19680, -19519, -19357, -19195, -19032, -18868, -18703, -18537, -18371,
    -18204, -18037, -17869, -17700, -17530, -17360, -17189, -17018, -16846, -16673, -16499, -16325, -16151, -15976, -15800, -15623,
    -15446, -15269, -15090, -14912, -14732, -14553, -14372, -14191, -14010, -13828, -13645, -13462, -13279, -13094, -12910, -12725,
    -12539, -12353, -12167, -11980, -11793, -11605, -11417, -11228, -11039, -10849, -10659, -10469, -10278, -10087, -9896, -9704,
    -9512, -9319, -9126, -8933, -8739, -8545, -8351, -8157, -7962, -7767, -7571, -7375, -7179, -6983, -6786, -6590,
    -6393, -6195, -5998, -5800, -5602, -5404, -5205, -5007, -4808, -4609, -4410, -4210, -4011, -3811, -3612, -3412,
    -3212, -3012, -2811, -2611, -2410, -2210, -2009, -1809, -1608, -1407, -1206, -1005, -804, -603, -402, -201,
];

/// The band-limited square table of `band` (0 to 9).
pub open spec fn square_table(band: int) -> Seq<i16> {
    if band == 0 {
        SQUARE_BAND_0@
    } else if band == 1 {
        SQUARE_BAND_1@
    } else if band == 2 {
        SQUARE_BAND_2@
    } else if band == 3 {
        SQUARE_BAND_3@
    } else if band == 4 {
        SQUARE_BAND_4@
    } else if band == 5 {
        SQUARE_BAND_5@
    } else if band == 6 {
        SQUARE_BAND_6@
    } else if band == 7 {
        SQUARE_BAND_7@
    } else if band == 8 {
        SQUARE_BAND_8@
    } else {
        SQUARE_BAND_9@
    }
}

/// Entry `index` of the band-limited square table of `band`.
pub fn square_sample(band: usize, index: usize) -> (r: i16)
    requires
        band < NUM_BANDS,
        index < TABLE_SIZE,
    ensures
        r == square_table(band as int)[index as int],
{
    match band {
        0 => SQUARE_BAND_0[index],
        1 => SQUARE_BAND_1[index],
        2 => SQUARE_BAND_2[index],
        3 => SQUARE_BAND_3[index],
        4 => SQUARE_BAND_4[index],
        5 => SQUARE_BAND_5[index],
        6 => SQUARE_BAND_6[index],
        7 => SQUARE_BAND_7[index],
        8 => SQUARE_BAND_8[index],
        _ => SQUARE_BAND_9[index],
    }
}

/// Band 0 of the band-limited sawtooth wave.
#[verifier::opaque]
pub const SAWTOOTH_BAND_0: [i16; 1024] = [
    0, 54, 109, 163, 217, 272, 326, 381, 435, 490, 543, 599, 652, 708, 760, 816,
    869, 925, 978, 1034, 1086, 1143, 1195, 1252, 1304, 1361, 1412, 1469, 1521, 1578, 1630, 1687,
    1738, 1796, 1847, 1905, 1955, 2014, 2064, 2123, 2173, 2231, 2281, 2340, 2390, 2449, 2499, 2558,
    2607, 2667, 2716, 2776, 2825, 2885, 2933, 2993, 3042, 3102, 3151, 3211, 3259, 3320, 3368, 3429,
    3476, 3538, 3585, 3647, 3694, 3755, 3802, 3864, 3911, 3973, 4020, 4082, 4128, 4191, 4237, 4300,
    4345, 4409, 4454, 4517, 4563, 4626, 4671, 4735, 4780, 4844, 4889, 4953, 4997, 5062, 5106, 5171,
    5215, 5279, 5323, 5388, 5432, 5497, 5540, 5606, 5649, 5715, 5758, 5824, 5866, 5933, 5975, 6041,
    6084, 6150, 6192, 6259, 6301, 6368, 6409, 6477, 6518, 6586, 6627, 6695, 6735, 6804, 6844, 6912,
    6953, 7021, 7061, 7130, 7170, 7239, 7278, 7348, 7387, 7457, 7496, 7566, 7604, 7675, 7713, 7783,
    7821, 7892, 7930, 8001, 8039, 8110, 8147, 8219, 8256, 8328, 8365, 8437, 8473, 8546, 8582, 8654,
    8690, 8763, 8799, 8872, 8908, 8981, 9016, 9090, 9125, 9199, 9233, 9308, 9342, 9417, 9451, 9526,
    9559, 9634, 9668, 9743, 9776, 9852, 9885, 9961, 9994, 10070, 10102, 10179, 10211, 10288, 10319, 10397,
    10428, 10506, 10537, 10614, 10645, 10723, 10754, 10832, 10862, 10941, 10971, 11050, 11080, 11159, 11188, 11268,
    11297, 11377, 11405, 11486, 11514, 11595, 11622, 11704, 11731, 11812, 11840, 11921, 11948, 12030, 12057, 12139,
    12165, 12248, 12274, 12357, 12382, 12466, 12491, 12575, 12600, 12684, 12708, 12793, 12817, 12902, 12925, 13011,
    13034, 13120, 13142, 13229, 13251, 13337, 13359, 13446, 13468, 13555, 13576, 13664, 13685, 13773, 13794, 13882,
    13902, 13991, 14011, 14100, 14119, 14209, 14228, 14318, 14336, 14427, 14445, 14536, 14553, 14645, 14662, 14754,
    14770, 14863, 14879, 14972, 14987, 15081, 15096, 15190, 15204, 15299, 15313, 15408, 15421, 15517, 15530, 15626,
    15638, 15735, 15747, 15844, 15855, 15953, 15964, 16062, 16072, 16171, 16181, 16280, 16289, 16389, 16398, 16498,
    16506, 16607, 16614, 16716, 16723, 16825, 16831, 16934, 16940, 17043, 17048, 17152, 17157, 17262, 17265, 17371,
    17373, 17480, 17482, 17589, 17590, 17698, 17699, 17807, 17807, 17916, 17915, 18025, 18024, 18134, 18132, 18244,
    18240, 18353, 18349, 18462, 18457, 18571, 18565, 18680, 18674, 18789, 18782, 18899, 18890, 19008, 18999, 19117,
    19107, 19226, 19215, 19335, 19323, 19445, 19432, 19554, 19540, 19663, 19648, 19772, 19756, 19882, 19864, 19991,
    19973, 20100, 20081, 20210, 20189, 20319, 20297, 20428, 20405, 20538, 20513, 20647, 20621, 20757, 20729, 20866,
    20837, 20976, 20945, 21085, 21053, 21195, 21161, 21304, 21269, 21414, 21377, 21523, 21485, 21633, 21593, 21743,
    21701, 21852, 21808, 21962, 21916, 22072, 22024, 22182, 22132, 22291, 22239, 22401, 22347, 22511, 22454, 22621,
    22562, 22731, 22669, 22841, 22777, 22951, 22884, 23061, 22991, 23172, 23099, 23282, 23206, 23392, 23313, 23503,
    23420, 23613, 23527, 23724, 23634, 23835, 23740, 23946, 23847, 24057, 23953, 24168, 24060, 24279, 24166, 24390,
    24272, 24502, 24378, 24613, 24483, 24725, 24589, 24838, 24694, 24950, 24799, 25063, 24904, 25176, 25008, 25289,
    25112, 25402, 25216, 25517, 25319, 25631, 25422, 25746, 25524, 25862, 25625, 25979, 25725, 26096, 25825, 26215,
    25923, 26335, 26020, 26456, 26115, 26579, 26209, 26705, 26299, 26833, 26387, 26965, 26470, 27102, 26547, 27246,
    26617, 27399, 26675, 27565, 26717, 27753, 26732, 27975, 26701, 28261, 26578, 28686, 26228, 29518, 25025, 32767,
    0, -32767, -25025, -29518, -26228, -28686, -26578, -28261, -26701, -27975, -26732, -27753, -26717, -27565, -26675, -27399,
    -26617, -27246, -26547, -27102, -26470, -26965, -26387, -26833, -26299, -26705, -26209, -26579, -26115, -26456, -26020, -26335,
    -25923, -26215, -25825, -26096, -25725, -25979, -25625, -25862, -25524, -25746, -25422, -25631, -25319, -25517, -25216, -25402,
    -25112, -25289, -25008, -25176, -24904, -25063, -24799, -24950, -24694, -24838, -24589, -24725, -24483, -24613, -24378, -24502,
    -24272, -24390, -24166, -24279, -24060, -24168, -23953, -24057, -23847, -23946, -23740, -23835, -23634, -23724, -23527, -23613,
    -23420, -23503, -23313, -23392, -23206, -23282, -23099, -23172, -22991, -23061, -22884, -22951, -22777, -22841, -22669, -22731,
    -22562, -22621, -22454, -22511, -22347, -22401, -22239, -22291, -22132, -22182, -22024, -22072, -21916, -21962, -21808, -21852,
    -21701, -21743, -21593, -21633, -21485, -21523, -21377, -21414, -21269, -21304, -21161, -21195, -21053, -21085, -20945, -20976,
    -20837, -20866, -20729, -20757, -20621, -20647, -20513, -20538, -20405, -20428, -20297, -20319, -20189, -20210, -20081, -20100,
    -19973, -19991, -19864, -19882, -19756, -19772, -19648, -19663, -19540, -19554, -19432, -19445, -19323, -19335, -19215, -19226,
    -19107, -19117, -18999, -19008, -18890, -18899, -18782, -18789, -18674, -18680, -18565, -18571, -18457, -18462, -18349, -18353,
    -18240, -18244, -18132, -18134, -18024, -18025, -17915, -17916, -17807, -17807, -17699, -17698, -17590, -17589, -17482, -17480,
    -17373, -17371, -17265, -17262, -17157, -17152, -17048, -17043, -16940, -16934, -16831, -16825, -16723, -16716, -16614, -16607,
    -16506, -16498, -16398, -16389, -16289, -16280, -16181, -16171, -16072, -16062, -15964, -15953, -15855, -15844, -15747, -15735,
    -15638, -15626, -15530, -15517, -15421, -15408, -15313, -15299, -15204, -15190, -15096, -15081, -14987, -14972, -14879, -14863,
    -14770, -14754, -14662, -14645, -14553, -14536, -14445, -14427, -14336, -14318, -14228, -14209, -14119, -14100, -14011, -13991,
    -13902, -13882, -13794, -13773, -13685, -13664, -13576, -13555, -13468, -13446, -13359, -13337, -13251, -13229, -13142, -13120,
    -13034, -13011, -12925, -12902, -12817, -12793, -12708, -12684, -12600, -12575, -12491, -12466, -12382, -12357, -12274, -12248,
    -12165, -12139, -12057, -12030, -11948, -11921, -11840, -11812, -11731, -11704, -11622, -11595, -11514, -11486, -11405, -11377,
    -11297, -11268, -11188, -11159, -11080, -11050, -10971, -10941, -10862, -10832, -10754, -10723, -10645, -10614, -10537, -10506,
    -10428, -10397, -10319, -10288, -10211, -10179, -10102, -10070, -9994, -9961, -9885, -9852, -9776, -9743, -9668, -9634,
    -9559, -9526, -9451, -9417, -9342, -9308, -9233, -9199, -9125, -9090, -9016, -8981, -8908, -8872, -8799, -8763,
    -8690, -8654, -8582, -8546, -8473, -8437, -8365, -8328, -8256, -8219, -8147, -8110, -8039, -8001, -7930, -7892,
    -7821, -7783, -7713, -7675, -7604, -7566, -7496, -7457, -7387, -7348, -7278, -7239, -7170, -7130, -7061, -7021,
    -6953, -6912, -6844, -6804, -6735, -6695, -6627, -6586, -6518, -6477, -6409, -6368, -6301, -6259, -6192, -6150,
    -6084, -6041, -5975, -5933, -5866, -5824, -5758, -5715, -5649, -5606, -5540, -5497, -5432, -5388, -5323, -5279,
    -5215, -5171, -5106, -5062, -4997, -4953, -4889, -4844, -4780, -4735, -4671, -4626, -4563, -4517, -4454, -4409,
    -4345, -4300, -4237, -4191, -4128, -4082, -4020, -3973, -3911, -3864, -3802, -3755, -3694, -3647, -3585, -3538,
    -3476, -3429, -3368, -3320, -3259, -3211, -3151, -3102, -3042, -2993, -2933, -2885, -2825, -2776, -2716, -2667,
    -2607, -2558, -2499, -2449, -2390, -2340, -2281, -2231, -2173, -2123, -2064, -2014, -1955, -1905, -1847, -1796,
    -1738, -1687, -1630, -1578, -1521, -1469, -1412, -1361, -1304, -1252, -1195, -1143, -1086, -1034, -978, -925,
    -869, -816, -760, -708, -652, -599, -543, -490, -435, -381, -326, -272, -217, -163, -109, -54,
];

/// Band 1 of the band-limited sawtooth wave.
#[verifier::opaque]
pub const SAWTOOTH_BAND_1: [i16; 1024] = [
    0, 20, 109, 198, 217, 238, 327, 416, 435, 456, 546, 634, 652, 673, 764, 852,
    870, 891, 982, 1069, 1087, 1109, 1201, 1287, 1305, 1327, 1419, 1505, 1522, 1545, 1637, 1723,
    1739, 1763, 1855, 1941, 1957, 1981, 2074, 2159, 2174, 2198, 2292, 2377, 2392, 2416, 2510, 2594,
    2609, 2634, 2729, 2812, 2827, 2852, 2947, 3030, 3044, 3070, 3165, 3248, 3261, 3288, 3383, 3466,
    3479, 3506, 3602, 3684, 3696, 3723, 3820, 3901, 3914, 3941, 4038, 4119, 4131, 4159, 4257, 4337,
    4348, 4377, 4475, 4555, 4566, 4595, 4693, 4773, 4783, 4813, 4912, 4991, 5001, 5030, 5130, 5209,
    5218, 5248, 5348, 5426, 5435, 5466, 5566, 5644, 5653, 5684, 5785, 5862, 5870, 5902, 6003, 6080,
    6087, 6120, 6221, 6298, 6305, 6338, 6440, 6516, 6522, 6555, 6658, 6734, 6740, 6773, 6876, 6951,
    6957, 6991, 7095, 7169, 7174, 7209, 7313, 7387, 7392, 7427, 7532, 7605, 7609, 7645, 7750, 7823,
    7826, 7863, 7968, 8041, 8044, 8080, 8187, 8259, 8261, 8298, 8405, 8476, 8478, 8516, 8623, 8694,
    8696, 8734, 8842, 8912, 8913, 8952, 9060, 9130, 9130, 9170, 9279, 9348, 9347, 9388, 9497, 9566,
    9565, 9605, 9716, 9783, 9782, 9823, 9934, 10001, 9999, 10041, 10152, 10219, 10217, 10259, 10371, 10437,
    10434, 10477, 10589, 10655, 10651, 10695, 10808, 10873, 10868, 10913, 11026, 11091, 11085, 11130, 11245, 11308,
    11303, 11348, 11463, 11526, 11520, 11566, 11682, 11744, 11737, 11784, 11900, 11962, 11954, 12002, 12119, 12180,
    12171, 12220, 12337, 12398, 12388, 12438, 12556, 12616, 12606, 12655, 12775, 12833, 12823, 12873, 12993, 13051,
    13040, 13091, 13212, 13269, 13257, 13309, 13431, 13487, 13474, 13527, 13649, 13705, 13691, 13745, 13868, 13923,
    13908, 13962, 14087, 14140, 14125, 14180, 14305, 14358, 14342, 14398, 14524, 14576, 14559, 14616, 14743, 14794,
    14776, 14834, 14962, 15012, 14993, 15052, 15180, 15230, 15209, 15270, 15399, 15448, 15426, 15487, 15618, 15665,
    15643, 15705, 15837, 15883, 15860, 15923, 16056, 16101, 16077, 16141, 16275, 16319, 16293, 16359, 16494, 16537,
    16510, 16577, 16713, 16755, 16727, 16795, 16932, 16973, 16943, 17012, 17151, 17190, 17160, 17230, 17370, 17408,
    17376, 17448, 17590, 17626, 17593, 17666, 17809, 17844, 17809, 17884, 18028, 18062, 18025, 18102, 18248, 18280,
    18242, 18320, 18467, 18497, 18458, 18538, 18687, 18715, 18674, 18755, 18906, 18933, 18890, 18973, 19126, 19151,
    19106, 19191, 19346, 19369, 19322, 19409, 19566, 19587, 19538, 19627, 19786, 19804, 19754, 19845, 20006, 20022,
    19969, 20063, 20226, 20240, 20185, 20280, 20446, 20458, 20400, 20498, 20667, 20676, 20615, 20716, 20887, 20894,
    20830, 20934, 21108, 21111, 21045, 21152, 21329, 21329, 21260, 21370, 21550, 21547, 21474, 21588, 21771, 21765,
    21688, 21806, 21993, 21983, 21902, 22024, 22215, 22200, 22116, 22241, 22437, 22418, 22329, 22459, 22660, 22636,
    22542, 22677, 22882, 22854, 22755, 22895, 23106, 23072, 22967, 23113, 23330, 23289, 23179, 23331, 23554, 23507,
    23390, 23549, 23779, 23725, 23600, 23767, 24005, 23943, 23809, 23985, 24232, 24160, 24018, 24203, 24459, 24378,
    24225, 24421, 24688, 24596, 24431, 24639, 24919, 24813, 24635, 24857, 25151, 25031, 24838, 25076, 25386, 25248,
    25037, 25294, 25624, 25465, 25234, 25512, 25865, 25683, 25426, 25731, 26111, 25899, 25612, 25950, 26364, 26116,
    25791, 26170, 26627, 26332, 25958, 26390, 26902, 26547, 26109, 26611, 27199, 26760, 26233, 26835, 27530, 26969,
    26310, 27065, 27926, 27170, 26295, 27310, 28462, 27343, 26054, 27610, 29404, 27382, 24958, 28354, 32767, 24314,
    0, -24314, -32767, -28354, -24958, -27382, -29404, -27610, -26054, -27343, -28462, -27310, -26295, -27170, -27926, -27065,
    -26310, -26969, -27530, -26835, -26233, -26760, -27199, -26611, -26109, -26547, -26902, -26390, -25958, -26332, -26627, -26170,
    -25791, -26116, -26364, -25950, -25612, -25899, -26111, -25731, -25426, -25683, -25865, -25512, -25234, -25465, -25624, -25294,
    -25037, -25248, -25386, -25076, -24838, -25031, -25151, -24857, -24635, -24813, -24919, -24639, -24431, -24596, -24688, -24421,
    -24225, -24378, -24459, -24203, -24018, -24160, -24232, -23985, -23809, -23943, -24005, -23767, -23600, -23725, -23779, -23549,
    -23390, -23507, -23554, -23331, -23179, -23289, -23330, -23113, -22967, -23072, -23106, -22895, -22755, -22854, -22882, -22677,
    -22542, -22636, -22660, -22459, -22329, -22418, -22437, -22241, -22116, -22200, -22215, -22024, -21902, -21983, -21993, -21806,
    -21688, -21765, -21771, -21588, -21474, -21547, -21550, -21370, -21260, -21329, -21329, -21152, -21045, -21111, -21108, -20934,
    -20830, -20894, -20887, -20716, -20615, -20676, -20667, -20498, -20400, -20458, -20446, -20280, -20185, -20240, -20226, -20063,
    -19969, -20022, -20006, -19845, -19754, -19804, -19786, -19627, -19538, -19587, -19566, -19409, -19322, -19369, -19346, -19191,
    -19106, -19151, -19126, -18973, -18890, -18933, -18906, -18755, -18674, -18715, -18687, -18538, -18458, -18497, -18467, -18320,
    -18242, -18280, -18248, -18102, -18025, -18062, -18028, -17884, -17809, -17844, -17809, -17666, -17593, -17626, -17590, -17448,
    -17376, -17408, -17370, -17230, -17160, -17190, -17151, -17012, -16943, -16973, -16932, -16795, -16727, -16755, -16713, -16577,
    -16510, -16537, -16494, -16359, -16293, -16319, -16275, -16141, -16077, -16101, -16056, -15923, -15860, -15883, -15837, -15705,
    -15643, -15665, -15618, -15487, -15426, -15448, -15399, -15270, -15209, -15230, -15180, -15052, -14993, -15012, -14962, -14834,
    -14776, -14794, -14743, -14616, -14559, -14576, -14524, -14398, -14342, -14358, -14305, -14180, -14125, -14140, -14087, -13962,
    -13908, -13923, -13868, -13745, -13691, -13705, -13649, -13527, -13474, -13487, -13431, -13309, -13257, -13269, -13212, -13091,
    -13040, -13051, -12993, -12873, -12823, -12833, -12775, -12655, -12606, -12616, -12556, -12438, -12388, -12398, -12337, -12220,
    -12171, -12180, -12119, -12002, -11954, -11962, -11900, -11784, -11737, -11744, -11682, -11566, -11520, -11526, -11463, -11348,
    -11303, -11308, -11245, -11130, -11085, -11091, -11026, -10913, -10868, -10873, -10808, -10695, -10651, -10655, -10589, -10477,
    -10434, -10437, -10371, -10259, -10217, -10219, -10152, -10041, -9999, -10001, -9934, -9823, -9782, -9783, -9716, -9605,
    -9565, -9566, -9497, -9388, -9347, -9348, -9279, -9170, -9130, -9130, -9060, -8952, -8913, -8912, -8842, -8734,
    -8696, -8694, -8623, -8516, -8478, -8476, -8405, -8298, -8261, -8259, -8187, -8080, -8044, -8041, -7968, -7863,
    -7826, -7823, -7750, -7645, -7609, -7605, -7532, -7427, -7392, -7387, -7313, -7209, -7174, -7169, -7095, -6991,
    -6957, -6951, -6876, -6773, -6740, -6734, -6658, -6555, -6522, -6516, -6440, -6338, -6305, -6298, -6221, -6120,
    -6087, -6080, -6003, -5902, -5870, -5862, -5785, -5684, -5653, -5644, -5566, -5466, -5435, -5426, -5348, -5248,
    -5218, -5209, -5130, -5030, -5001, -4991, -4912, -4813, -4783, -4773, -4693, -4595, -4566, -4555, -4475, -4377,
    -4348, -4337, -4257, -4159, -4131, -4119, -4038, -3941, -3914, -3901, -3820, -3723, -3696, -3684, -3602, -3506,
    -3479, -3466, -3383, -3288, -3261, -3248, -3165, -3070, -3044, -3030, -2947, -2852, -2827, -2812, -2729, -2634,
    -2609, -2594, -2510, -2416, -2392, -2377, -2292, -2198, -2174, -2159, -2074, -1981, -1957, -1941, -1855, -1763,
    -1739, -1723, -1637, -1545, -1522, -1505, -1419, -1327, -1305, -1287, -1201, -1109, -1087, -1069, -982, -891,
    -870, -852, -764, -673, -652, -634, -546, -456, -435, -416, -327, -238, -217, -198, -109, -20,
];

/// Band 2 of the band-limited sawtooth wave.
#[verifier::opaque]
pub const SAWTOOTH_BAND_2: [i16; 1024] = [
    0, 5, 40, 115, 219, 323, 397, 430, 435, 441, 477, 554, 658, 761, 834, 866,
    871, 877, 914, 992, 1097, 1200, 1271, 1302, 1306, 1313, 1351, 1430, 1536, 1638, 1709, 1738,
    1742, 1749, 1789, 1869, 1975, 2076, 2146, 2174, 2177, 2185, 2226, 2307, 2414, 2515, 2583, 2610,
    2613, 2621, 2663, 2746, 2853, 2953, 3020, 3046, 3048, 3057, 3100, 3184, 3292, 3392, 3457, 3482,
    3483, 3493, 3537, 3622, 3731, 3830, 3894, 3918, 3919, 3929, 3974, 4061, 4170, 4269, 4332, 4354,
    4354, 4365, 4412, 4499, 4609, 4707, 4769, 4790, 4790, 4801, 4849, 4938, 5048, 5145, 5206, 5226,
    5225, 5237, 5286, 5376, 5487, 5584, 5643, 5661, 5660, 5672, 5723, 5815, 5926, 6022, 6080, 6097,
    6095, 6108, 6160, 6253, 6365, 6461, 6517, 6533, 6531, 6544, 6597, 6692, 6804, 6899, 6955, 6969,
    6966, 6980, 7035, 7130, 7243, 7338, 7392, 7404, 7401, 7415, 7472, 7569, 7682, 7777, 7829, 7840,
    7836, 7851, 7909, 8008, 8121, 8215, 8266, 8276, 8271, 8287, 8346, 8446, 8561, 8654, 8703, 8711,
    8706, 8722, 8783, 8885, 9000, 9093, 9140, 9147, 9141, 9158, 9220, 9324, 9440, 9531, 9577, 9583,
    9576, 9594, 9658, 9763, 9879, 9970, 10015, 10018, 10011, 10029, 10095, 10202, 10319, 10409, 10452, 10453,
    10445, 10465, 10532, 10640, 10758, 10848, 10889, 10889, 10880, 10900, 10969, 11079, 11198, 11287, 11326, 11324,
    11315, 11335, 11406, 11518, 11638, 11726, 11763, 11759, 11749, 11770, 11844, 11958, 12078, 12165, 12200, 12195,
    12183, 12206, 12281, 12397, 12518, 12604, 12637, 12630, 12618, 12641, 12718, 12836, 12958, 13044, 13075, 13065,
    13052, 13076, 13155, 13275, 13398, 13483, 13512, 13500, 13486, 13511, 13592, 13715, 13838, 13922, 13949, 13934,
    13920, 13945, 14029, 14154, 14279, 14362, 14386, 14369, 14353, 14380, 14467, 14594, 14720, 14802, 14823, 14804,
    14787, 14815, 14904, 15034, 15161, 15241, 15260, 15238, 15220, 15249, 15341, 15474, 15602, 15681, 15697, 15672,
    15653, 15683, 15778, 15914, 16043, 16122, 16135, 16106, 16086, 16117, 16215, 16354, 16485, 16562, 16572, 16540,
    16518, 16551, 16653, 16795, 16927, 17002, 17009, 16974, 16951, 16985, 17090, 17236, 17369, 17443, 17446, 17407,
    17382, 17418, 17527, 17677, 17812, 17884, 17883, 17840, 17814, 17852, 17964, 18118, 18255, 18326, 18320, 18273,
    18245, 18284, 18402, 18560, 18699, 18767, 18757, 18705, 18675, 18717, 18839, 19002, 19143, 19210, 19194, 19137,
    19105, 19149, 19276, 19445, 19588, 19652, 19631, 19569, 19534, 19580, 19713, 19888, 20033, 20095, 20068, 20000,
    19962, 20011, 20151, 20332, 20480, 20539, 20505, 20430, 20390, 20441, 20588, 20776, 20927, 20983, 20942, 20859,
    20816, 20871, 21025, 21222, 21376, 21429, 21379, 21288, 21241, 21299, 21463, 21668, 21827, 21875, 21816, 21715,
    21664, 21726, 21900, 22116, 22279, 22323, 22253, 22140, 22085, 22152, 22338, 22566, 22733, 22772, 22690, 22564,
    22503, 22576, 22775, 23017, 23191, 23224, 23126, 22986, 22918, 22998, 23213, 23471, 23652, 23678, 23563, 23404,
    23329, 23417, 23651, 23929, 24118, 24135, 23999, 23819, 23734, 23831, 24090, 24392, 24591, 24597, 24435, 24227,
    24132, 24241, 24528, 24861, 25073, 25066, 24870, 24628, 24518, 24642, 24968, 25340, 25569, 25544, 25304, 25017,
    24887, 25032, 25409, 25834, 26085, 26037, 25736, 25387, 25230, 25403, 25852, 26353, 26637, 26554, 26165, 25723,
    25525, 25742, 26301, 26918, 27253, 27114, 26585, 25992, 25729, 26018, 26765, 27584, 28009, 27770, 26978, 26098,
    25705, 26143, 27285, 28545, 29174, 28692, 27235, 25585, 24823, 25734, 28250, 31234, 32767, 30873, 24376, 13513,
    0, -13513, -24376, -30873, -32767, -31234, -28250, -25734, -24823, -25585, -27235, -28692, -29174, -28545, -27285, -26143,
    -25705, -26098, -26978, -27770, -28009, -27584, -26765, -26018, -25729, -25992, -26585, -27114, -27253, -26918, -26301, -25742,
    -25525, -25723, -26165, -26554, -26637, -26353, -25852, -25403, -25230, -25387, -25736, -26037, -26085, -25834, -25409, -25032,
    -24887, -25017, -25304, -25544, -25569, -25340, -24968, -24642, -24518, -24628, -24870, -25066, -25073, -24861, -24528, -24241,
    -24132, -24227, -24435, -24597, -24591, -24392, -24090, -23831, -23734, -23819, -23999, -24135, -24118, -23929, -23651, -23417,
    -23329, -23404, -23563, -23678, -23652, -23471, -23213, -22998, -22918, -22986, -23126, -23224, -23191, -23017, -22775, -22576,
    -22503, -22564, -22690, -22772, -22733, -22566, -22338, -22152, -22085, -22140, -22253, -22323, -22279, -22116, -21900, -21726,
    -21664, -21715, -21816, -21875, -21827, -21668, -21463, -21299, -21241, -21288, -21379, -21429, -21376, -21222, -21025, -20871,
    -20816, -20859, -20942, -20983, -20927, -20776, -20588, -20441, -20390, -20430, -20505, -20539, -20480, -20332, -20151, -20011,
    -19962, -20000, -20068, -20095, -20033, -19888, -19713, -19580, -19534, -19569, -19631, -19652, -19588, -19445, -19276, -19149,
    -19105, -19137, -19194, -19210, -19143, -19002, -18839, -18717, -18675, -18705, -18757, -18767, -18699, -18560, -18402, -18284,
    -18245, -18273, -18320, -18326, -18255, -18118, -17964, -17852, -17814, -17840, -17883, -17884, -17812, -17677, -17527, -17418,
    -17382, -17407, -17446, -17443, -17369, -17236, -17090, -16985, -16951, -16974, -17009, -17002, -16927, -16795, -16653, -16551,
    -16518, -16540, -16572, -16562, -16485, -16354, -16215, -16117, -16086, -16106, -16135, -16122, -16043, -15914, -15778, -15683,
    -15653, -15672, -15697, -15681, -15602, -15474, -15341, -15249, -15220, -15238, -15260, -15241, -15161, -15034, -14904, -14815,
    -14787, -14804, -14823, -14802, -14720, -14594, -14467, -14380, -14353, -14369, -14386, -14362, -14279, -14154, -14029, -13945,
    -13920, -13934, -13949, -13922, -13838, -13715, -13592, -13511, -13486, -13500, -13512, -13483, -13398, -13275, -13155, -13076,
    -13052, -13065, -13075, -13044, -12958, -12836, -12718, -12641, -12618, -12630, -12637, -12604, -12518, -12397, -12281, -12206,
    -12183, -12195, -12200, -12165, -12078, -11958, -11844, -11770, -11749, -11759, -11763, -11726, -11638, -11518, -11406, -11335,
    -11315, -11324, -11326, -11287, -11198, -11079, -10969, -10900, -10880, -10889, -10889, -10848, -10758, -10640, -10532, -10465,
    -10445, -10453, -10452, -10409, -10319, -10202, -10095, -10029, -10011, -10018, -10015, -9970, -9879, -9763, -9658, -9594,
    -9576, -9583, -9577, -9531, -9440, -9324, -9220, -9158, -9141, -9147, -9140, -9093, -9000, -8885, -8783, -8722,
    -8706, -8711, -8703, -8654, -8561, -8446, -8346, -8287, -8271, -8276, -8266, -8215, -8121, -8008, -7909, -7851,
    -7836, -7840, -7829, -7777, -7682, -7569, -7472, -7415, -7401, -7404, -7392, -7338, -7243, -7130, -7035, -6980,
    -6966, -6969, -6955, -6899, -6804, -6692, -6597, -6544, -6531, -6533, -6517, -6461, -6365, -6253, -6160, -6108,
    -6095, -6097, -6080, -6022, -5926, -5815, -5723, -5672, -5660, -5661, -5643, -5584, -5487, -5376, -5286, -5237,
    -5225, -5226, -5206, -5145, -5048, -4938, -4849, -4801, -4790, -4790, -4769, -4707, -4609, -4499, -4412, -4365,
    -4354, -4354, -4332, -4269, -4170, -4061, -3974, -3929, -3919, -3918, -3894, -3830, -3731, -3622, -3537, -3493,
    -3483, -3482, -3457, -3392, -3292, -3184, -3100, -3057, -3048, -3046, -3020, -2953, -2853, -2746, -2663, -2621,
    -2613, -2610, -2583, -2515, -2414, -2307, -2226, -2185, -2177, -2174, -2146, -2076, -1975, -1869, -1789, -1749,
    -1742, -1738, -1709, -1638, -1536, -1430, -1351, -1313, -1306, -1302, -1271, -1200, -1097, -992, -914, -877,
    -871, -866, -834, -761, -658, -554, -477, -441, -435, -430, -397, -323, -219, -115, -40, -5,
];

/// Band 3 of the band-limited sawtooth wave.
#[verifier::opaque]
pub const SAWTOOTH_BAND_3: [i16; 1024] = [
    0, 1, 11, 36, 81, 147, 234, 335, 444, 552, 651, 735, 799, 841, 864, 872,
    873, 875, 886, 914, 961, 1030, 1119, 1221, 1331, 1438, 1537, 1618, 1679, 1719, 1740, 1746,
    1747, 1749, 1762, 1791, 1842, 1913, 2004, 2108, 2218, 2325, 2422, 2501, 2560, 2597, 2615, 2620,
    2620, 2623, 2637, 2669, 2722, 2796, 2889, 2995, 3105, 3212, 3307, 3384, 3440, 3474, 3490, 3494,
    3493, 3497, 3512, 3546, 3602, 3679, 3774, 3881, 3992, 4099, 4192, 4267, 4320, 4351, 4365, 4367,
    4366, 4370, 4387, 4424, 4482, 4562, 4660, 4768, 4880, 4986, 5078, 5150, 5200, 5229, 5240, 5241,
    5239, 5243, 5262, 5301, 5362, 5445, 5545, 5656, 5768, 5873, 5963, 6033, 6080, 6106, 6115, 6114,
    6111, 6117, 6137, 6179, 6243, 6328, 6431, 6543, 6656, 6760, 6849, 6916, 6961, 6983, 6990, 6987,
    6984, 6990, 7012, 7056, 7123, 7212, 7317, 7431, 7544, 7648, 7735, 7799, 7841, 7860, 7864, 7859,
    7856, 7862, 7886, 7933, 8003, 8095, 8203, 8319, 8433, 8536, 8621, 8683, 8721, 8737, 8738, 8732,
    8727, 8734, 8760, 8810, 8884, 8979, 9090, 9207, 9322, 9424, 9507, 9566, 9601, 9614, 9612, 9603,
    9598, 9606, 9634, 9687, 9764, 9863, 9976, 10096, 10211, 10313, 10394, 10450, 10481, 10490, 10485, 10475,
    10469, 10478, 10508, 10563, 10644, 10747, 10864, 10985, 11101, 11202, 11281, 11334, 11361, 11367, 11358, 11345,
    11339, 11348, 11381, 11439, 11525, 11631, 11751, 11875, 11992, 12093, 12169, 12218, 12241, 12243, 12231, 12215,
    12208, 12218, 12253, 12316, 12405, 12516, 12640, 12766, 12884, 12983, 13057, 13103, 13121, 13118, 13102, 13085,
    13076, 13087, 13125, 13191, 13285, 13401, 13529, 13658, 13777, 13875, 13946, 13988, 14001, 13993, 13973, 13953,
    13943, 13956, 13996, 14067, 14166, 14286, 14419, 14551, 14671, 14768, 14836, 14873, 14881, 14868, 14843, 14819,
    14809, 14822, 14866, 14941, 15046, 15173, 15310, 15445, 15566, 15662, 15727, 15759, 15761, 15742, 15712, 15685,
    15673, 15688, 15735, 15816, 15927, 16060, 16202, 16341, 16463, 16558, 16620, 16646, 16641, 16615, 16579, 16548,
    16535, 16551, 16602, 16689, 16807, 16947, 17096, 17239, 17363, 17456, 17513, 17533, 17521, 17487, 17445, 17409,
    17395, 17412, 17468, 17561, 17688, 17836, 17992, 18140, 18266, 18357, 18409, 18422, 18401, 18358, 18308, 18267,
    18251, 18270, 18331, 18433, 18569, 18727, 18891, 19044, 19172, 19262, 19308, 19311, 19280, 19227, 19168, 19121,
    19103, 19124, 19191, 19303, 19450, 19619, 19793, 19953, 20083, 20170, 20210, 20203, 20159, 20093, 20024, 19970,
    19949, 19973, 20048, 20170, 20331, 20514, 20700, 20868, 21001, 21085, 21116, 21097, 21038, 20957, 20874, 20811,
    20787, 20815, 20898, 21035, 21213, 21413, 21614, 21792, 21928, 22009, 22030, 21994, 21916, 21816, 21717, 21643,
    21614, 21646, 21741, 21896, 22096, 22318, 22537, 22728, 22869, 22945, 22952, 22896, 22794, 22668, 22547, 22458,
    22424, 22461, 22573, 22751, 22980, 23231, 23476, 23684, 23831, 23901, 23890, 23806, 23669, 23509, 23358, 23249,
    23208, 23252, 23385, 23598, 23866, 24159, 24440, 24673, 24828, 24889, 24851, 24726, 24541, 24330, 24135, 23996,
    23944, 24000, 24166, 24428, 24758, 25114, 25450, 25721, 25890, 25937, 25857, 25668, 25404, 25111, 24845, 24657,
    24587, 24661, 24883, 25231, 25666, 26131, 26562, 26900, 27093, 27114, 26958, 26650, 26239, 25793, 25390, 25106,
    25001, 25113, 25447, 25973, 26629, 27328, 27971, 28458, 28707, 28667, 28328, 27724, 26938, 26087, 25313, 24759,
    24552, 24780, 25474, 26598, 28041, 29626, 31119, 32257, 32767, 32401, 30965, 28339, 24500, 19527, 13599, 6980,
    0, -6980, -13599, -19527, -24500, -28339, -30965, -32401, -32767, -32257, -31119, -29626, -28041, -26598, -25474, -24780,
    -24552, -24759, -25313, -26087, -26938, -27724, -28328, -28667, -28707, -28458, -27971, -27328, -26629, -25973, -25447, -25113,
    -25001, -25106, -25390, -25793, -26239, -26650, -26958, -27114, -27093, -26900, -26562, -26131, -25666, -25231, -24883, -24661,
    -24587, -24657, -24845, -25111, -25404, -25668, -25857, -25937, -25890, -25721, -25450, -25114, -24758, -24428, -24166, -24000,
    -23944, -23996, -24135, -24330, -24541, -24726, -24851, -24889, -24828, -24673, -24440, -24159, -23866, -23598, -23385, -23252,
    -23208, -23249, -23358, -23509, -23669, -23806, -23890, -23901, -23831, -23684, -23476, -23231, -22980, -22751, -22573, -22461,
    -22424, -22458, -22547, -22668, -22794, -22896, -22952, -22945, -22869, -22728, -22537, -22318, -22096, -21896, -21741, -21646,
    -21614, -21643, -21717, -21816, -21916, -21994, -22030, -22009, -21928, -21792, -21614, -21413, -21213, -21035, -20898, -20815,
    -20787, -20811, -20874, -20957, -21038, -21097, -21116, -21085, -21001, -20868, -20700, -20514, -20331, -20170, -20048, -19973,
    -19949, -19970, -20024, -20093, -20159, -20203, -20210, -20170, -20083, -19953, -19793, -19619, -19450, -19303, -19191, -19124,
    -19103, -19121, -19168, -19227, -19280, -19311, -19308, -19262, -19172, -19044, -18891, -18727, -18569, -18433, -18331, -18270,
    -18251, -18267, -18308, -18358, -18401, -18422, -18409, -18357, -18266, -18140, -17992, -17836, -17688, -17561, -17468, -17412,
    -17395, -17409, -17445, -17487, -17521, -17533, -17513, -17456, -17363, -17239, -17096, -16947, -16807, -16689, -16602, -16551,
    -16535, -16548, -16579, -16615, -16641, -16646, -16620, -16558, -16463, -16341, -16202, -16060, -15927, -15816, -15735, -15688,
    -15673, -15685, -15712, -15742, -15761, -15759, -15727, -15662, -15566, -15445, -15310, -15173, -15046, -14941, -14866, -14822,
    -14809, -14819, -14843, -14868, -14881, -14873, -14836, -14768, -14671, -14551, -14419, -14286, -14166, -14067, -13996, -13956,
    -13943, -13953, -13973, -13993, -14001, -13988, -13946, -13875, -13777, -13658, -13529, -13401, -13285, -13191, -13125, -13087,
    -13076, -13085, -13102, -13118, -13121, -13103, -13057, -12983, -12884, -12766, -12640, -12516, -12405, -12316, -12253, -12218,
    -12208, -12215, -12231, -12243, -12241, -12218, -12169, -12093, -11992, -11875, -11751, -11631, -11525, -11439, -11381, -11348,
    -11339, -11345, -11358, -11367, -11361, -11334, -11281, -11202, -11101, -10985, -10864, -10747, -10644, -10563, -10508, -10478,
    -10469, -10475, -10485, -10490, -10481, -10450, -10394, -10313, -10211, -10096, -9976, -9863, -9764, -9687, -9634, -9606,
    -9598, -9603, -9612, -9614, -9601, -9566, -9507, -9424, -9322, -9207, -9090, -8979, -8884, -8810, -8760, -8734,
    -8727, -8732, -8738, -8737, -8721, -8683, -8621, -8536, -8433, -8319, -8203, -8095, -8003, -7933, -7886, -7862,
    -7856, -7859, -7864, -7860, -7841, -7799, -7735, -7648, -7544, -7431, -7317, -7212, -7123, -7056, -7012, -6990,
    -6984, -6987, -6990, -6983, -6961, -6916, -6849, -6760, -6656, -6543, -6431, -6328, -6243, -6179, -6137, -6117,
    -6111, -6114, -6115, -6106, -6080, -6033, -5963, -5873, -5768, -5656, -5545, -5445, -5362, -5301, -5262, -5243,
    -5239, -5241, -5240, -5229, -5200, -5150, -5078, -4986, -4880, -4768, -4660, -4562, -4482, -4424, -4387, -4370,
    -4366, -4367, -4365, -4351, -4320, -4267, -4192, -4099, -3992, -3881, -3774, -3679, -3602, -3546, -3512, -3497,
    -3493, -3494, -3490, -3474, -3440, -3384, -3307, -3212, -3105, -2995, -2889, -2796, -2722, -2669, -2637, -2623,
    -2620, -2620, -2615, -2597, -2560, -2501, -2422, -2325, -2218, -2108, -2004, -1913, -1842, -1791, -1762, -1749,
    -1747, -1746, -1740, -1719, -1679, -1618, -1537, -1438, -1331, -1221, -1119, -1030, -961, -914, -886, -875,
    -873, -872, -864, -841, -799, -735, -651, -552, -444, -335, -234, -147, -81, -36, -11, -1,
];

/// Band 4 of the band-limited sawtooth wave.
#[verifier::opaque]
pub const SAWTOOTH_BAND_4: [i16; 1024] = [
    0, 0, 3, 10, 23, 44, 74, 115, 167, 229, 303, 386, 479, 579, 685, 795,
    906, 1017, 1125, 1229, 1325, 1414, 1493, 1561, 1618, 1664, 1700, 1725, 1742, 1752, 1756, 1757,
    1757, 1758, 1762, 1771, 1788, 1813, 1848, 1894, 1951, 2019, 2098, 2187, 2283, 2387, 2496, 2607,
    2719, 2829, 2936, 3037, 3130, 3214, 3288, 3351, 3402, 3443, 3473, 3494, 3506, 3512, 3514, 3513,
    3513, 3514, 3520, 3532, 3552, 3582, 3622, 3673, 3736, 3810, 3894, 3987, 4089, 4196, 4307, 4420,
    4533, 4642, 4747, 4845, 4935, 5015, 5083, 5141, 5187, 5222, 5246, 5262, 5270, 5272, 5271, 5269,
    5268, 5270, 5277, 5292, 5316, 5350, 5395, 5452, 5521, 5600, 5690, 5789, 5895, 6006, 6120, 6235,
    6348, 6457, 6560, 6655, 6741, 6816, 6880, 6931, 6971, 7000, 7019, 7029, 7032, 7031, 7027, 7023,
    7021, 7023, 7033, 7050, 7078, 7117, 7168, 7231, 7306, 7392, 7488, 7592, 7702, 7818, 7935, 8051,
    8165, 8273, 8375, 8467, 8549, 8619, 8676, 8722, 8755, 8778, 8790, 8794, 8793, 8787, 8780, 8774,
    8771, 8775, 8786, 8807, 8839, 8883, 8940, 9009, 9091, 9184, 9286, 9396, 9513, 9632, 9752, 9871,
    9985, 10093, 10193, 10281, 10359, 10423, 10474, 10513, 10539, 10554, 10560, 10558, 10550, 10540, 10529, 10521,
    10518, 10522, 10535, 10560, 10597, 10647, 10710, 10787, 10876, 10977, 11086, 11204, 11326, 11450, 11574, 11695,
    11810, 11917, 12014, 12099, 12171, 12230, 12274, 12305, 12323, 12330, 12327, 12318, 12304, 12289, 12274, 12263,
    12259, 12264, 12280, 12309, 12351, 12408, 12479, 12564, 12662, 12771, 12889, 13015, 13144, 13274, 13402, 13526,
    13642, 13748, 13842, 13923, 13989, 14040, 14076, 14098, 14106, 14104, 14092, 14074, 14053, 14031, 14012, 13998,
    13993, 13999, 14018, 14051, 14100, 14164, 14245, 14340, 14448, 14568, 14696, 14831, 14968, 15105, 15238, 15365,
    15482, 15587, 15678, 15754, 15813, 15855, 15881, 15892, 15889, 15875, 15852, 15824, 15793, 15764, 15739, 15722,
    15716, 15723, 15745, 15784, 15841, 15915, 16007, 16114, 16235, 16368, 16508, 16654, 16802, 16947, 17087, 17218,
    17336, 17440, 17527, 17596, 17646, 17677, 17691, 17688, 17670, 17642, 17605, 17564, 17522, 17483, 17451, 17429,
    17421, 17430, 17457, 17504, 17570, 17657, 17763, 17886, 18023, 18172, 18329, 18490, 18651, 18807, 18955, 19091,
    19211, 19313, 19395, 19455, 19494, 19511, 19508, 19486, 19450, 19402, 19347, 19288, 19231, 19179, 19137, 19110,
    19100, 19111, 19144, 19201, 19281, 19385, 19510, 19654, 19814, 19986, 20165, 20347, 20526, 20697, 20856, 20999,
    21122, 21221, 21296, 21344, 21366, 21363, 21336, 21289, 21226, 21151, 21069, 20985, 20906, 20836, 20780, 20744,
    20732, 20745, 20787, 20859, 20959, 21088, 21242, 21418, 21611, 21817, 22029, 22241, 22447, 22641, 22818, 22972,
    23098, 23194, 23257, 23287, 23283, 23249, 23186, 23099, 22993, 22875, 22751, 22628, 22513, 22414, 22336, 22286,
    22269, 22287, 22344, 22439, 22573, 22743, 22945, 23174, 23423, 23686, 23954, 24219, 24472, 24706, 24912, 25084,
    25217, 25306, 25349, 25346, 25297, 25205, 25076, 24916, 24732, 24534, 24331, 24134, 23953, 23797, 23677, 23600,
    23574, 23602, 23687, 23832, 24033, 24286, 24586, 24925, 25292, 25675, 26063, 26441, 26797, 27118, 27390, 27605,
    27752, 27826, 27823, 27741, 27582, 27353, 27060, 26716, 26333, 25929, 25519, 25124, 24762, 24452, 24211, 24057,
    24003, 24060, 24235, 24532, 24948, 25477, 26110, 26829, 27616, 28444, 29287, 30112, 30886, 31574, 32140, 32549,
    32767, 32762, 32507, 31976, 31153, 30022, 28578, 26820, 24754, 22393, 19758, 16874, 13774, 10494, 7075, 3561,
    0, -3561, -7075, -10494, -13774, -16874, -19758, -22393, -24754, -26820, -28578, -30022, -31153, -31976, -32507, -32762,
    -32767, -32549, -32140, -31574, -30886, -30112, -29287, -28444, -27616, -26829, -26110, -25477, -24948, -24532, -24235, -24060,
    -24003, -24057, -24211, -24452, -24762, -25124, -25519, -25929, -26333, -26716, -27060, -27353, -27582, -27741, -27823, -27826,
    -27752, -27605, -27390, -27118, -26797, -26441, -26063, -25675, -25292, -24925, -24586, -24286, -24033, -23832, -23687, -23602,
    -23574, -23600, -23677, -23797, -23953, -24134, -24331, -24534, -24732, -24916, -25076, -25205, -25297, -25346, -25349, -25306,
    -25217, -25084, -24912, -24706, -24472, -24219, -23954, -23686, -23423, -23174, -22945, -22743, -22573, -22439, -22344, -22287,
    -22269, -22286, -22336, -22414, -22513, -22628, -22751, -22875, -22993, -23099, -23186, -23249, -23283, -23287, -23257, -23194,
    -23098, -22972, -22818, -22641, -22447, -22241, -22029, -21817, -21611, -21418, -21242, -21088, -20959, -20859, -20787, -20745,
    -20732, -20744, -20780, -20836, -20906, -20985, -21069, -21151, -21226, -21289, -21336, -21363, -21366, -21344, -21296, -21221,
    -21122, -20999, -20856, -20697, -20526, -20347, -20165, -19986, -19814, -19654, -19510, -19385, -19281, -19201, -19144, -19111,
    -19100, -19110, -19137, -19179, -19231, -19288, -19347, -19402, -19450, -19486, -19508, -19511, -19494, -19455, -19395, -19313,
    -19211, -19091, -18955, -18807, -18651, -18490, -18329, -18172, -18023, -17886, -17763, -17657, -17570, -17504, -17457, -17430,
    -17421, -17429, -17451, -17483, -17522, -17564, -17605, -17642, -17670, -17688, -17691, -17677, -17646, -17596, -17527, -17440,
    -17336, -17218, -17087, -16947, -16802, -16654, -16508, -16368, -16235, -16114, -16007, -15915, -15841, -15784, -15745, -15723,
    -15716, -15722, -15739, -15764, -15793, -15824, -15852, -15875, -15889, -15892, -15881, -15855, -15813, -15754, -15678, -15587,
    -15482, -15365, -15238, -15105, -14968, -14831, -14696, -14568, -14448, -14340, -14245, -14164, -14100, -14051, -14018, -13999,
    -13993, -13998, -14012, -14031, -14053, -14074, -14092, -14104, -14106, -14098, -14076, -14040, -13989, -13923, -13842, -13748,
    -13642, -13526, -13402, -13274, -13144, -13015, -12889, -12771, -12662, -12564, -12479, -12408, -12351, -12309, -12280, -12264,
    -12259, -12263, -12274, -12289, -12304, -12318, -12327, -12330, -12323, -12305, -12274, -12230, -12171, -12099, -12014, -11917,
    -11810, -11695, -11574, -11450, -11326, -11204, -11086, -10977, -10876, -10787, -10710, -10647, -10597, -10560, -10535, -10522,
    -10518, -10521, -10529, -10540, -10550, -10558, -10560, -10554, -10539, -10513, -10474, -10423, -10359, -10281, -10193, -10093,
    -9985, -9871, -9752, -9632, -9513, -9396, -9286, -9184, -9091, -9009, -8940, -8883, -8839, -8807, -8786, -8775,
    -8771, -8774, -8780, -8787, -8793, -8794, -8790, -8778, -8755, -8722, -8676, -8619, -8549, -8467, -8375, -8273,
    -8165, -8051, -7935, -7818, -7702, -7592, -7488, -7392, -7306, -7231, -7168, -7117, -7078, -7050, -7033, -7023,
    -7021, -7023, -7027, -7031, -7032, -7029, -7019, -7000, -6971, -6931, -6880, -6816, -6741, -6655, -6560, -6457,
    -6348, -6235, -6120, -6006, -5895, -5789, -5690, -5600, -5521, -5452, -5395, -5350, -5316, -5292, -5277, -5270,
    -5268, -5269, -5271, -5272, -5270, -5262, -5246, -5222, -5187, -5141, -5083, -5015, -4935, -4845, -4747, -4642,
    -4533, -4420, -4307, -4196, -4089, -3987, -3894, -3810, -3736, -3673, -3622, -3582, -3552, -3532, -3520, -3514,
    -3513, -3513, -3514, -3512, -3506, -3494, -3473, -3443, -3402, -3351, -3288, -3214, -3130, -3037, -2936, -2829,
    -2719, -2607, -2496, -2387, -2283, -2187, -2098, -2019, -1951, -1894, -1848, -1813, -1788, -1771, -1762, -1758,
    -1757, -1757, -1756, -1752, -1742, -1725, -1700, -1664, -1618, -1561, -1493, -1414, -1325, -1229, -1125, -1017,
    -906, -795, -685, -579, -479, -386, -303, -229, -167, -115, -74, -44, -23, -10, -3, 0,
];

/// Band 5 of the band-limited sawtooth wave.
#[verifier::opaque]
pub const SAWTOOTH_BAND_5: [i16; 1024] = [
    0, 0, 1, 3, 6, 12, 21, 33, 48, 68, 93, 122, 157, 197, 242, 293,
    351, 413, 482, 556, 636, 721, 810, 905, 1003, 1106, 1212, 1320, 1431, 1544, 1657, 1772,
    1886, 2000, 2113, 2224, 2333, 2439, 2542, 2641, 2736, 2826, 2911, 2992, 3066, 3135, 3199, 3256,
    3308, 3353, 3393, 3428, 3457, 3482, 3501, 3517, 3528, 3536, 3542, 3544, 3545, 3545, 3544, 3543,
    3543, 3544, 3546, 3550, 3558, 3569, 3583, 3602, 3625, 3654, 3687, 3726, 3771, 3822, 3879, 3942,
    4010, 4084, 4164, 4250, 4340, 4436, 4535, 4639, 4746, 4856, 4969, 5084, 5199, 5316, 5433, 5549,
    5664, 5777, 5888, 5997, 6102, 6203, 6299, 6391, 6478, 6560, 6635, 6705, 6769, 6827, 6879, 6924,
    6964, 6998, 7026, 7049, 7067, 7081, 7090, 7096, 7098, 7098, 7096, 7093, 7088, 7084, 7080, 7077,
    7076, 7078, 7082, 7089, 7101, 7117, 7138, 7164, 7196, 7233, 7277, 7327, 7383, 7446, 7515, 7590,
    7671, 7759, 7851, 7949, 8051, 8158, 8269, 8383, 8500, 8619, 8739, 8860, 8982, 9103, 9223, 9341,
    9457, 9569, 9678, 9784, 9884, 9979, 10069, 10153, 10231, 10302, 10367, 10426, 10477, 10522, 10560, 10593,
    10618, 10638, 10653, 10662, 10667, 10668, 10665, 10660, 10652, 10642, 10632, 10621, 10611, 10601, 10594, 10589,
    10587, 10589, 10596, 10607, 10623, 10646, 10674, 10709, 10751, 10800, 10855, 10918, 10988, 11065, 11149, 11239,
    11336, 11438, 11546, 11659, 11776, 11897, 12021, 12148, 12276, 12406, 12536, 12665, 12794, 12920, 13044, 13164,
    13281, 13393, 13500, 13601, 13695, 13784, 13865, 13939, 14005, 14064, 14115, 14159, 14195, 14224, 14245, 14260,
    14269, 14271, 14268, 14260, 14248, 14233, 14215, 14195, 14173, 14152, 14130, 14110, 14092, 14076, 14064, 14056,
    14054, 14057, 14066, 14082, 14105, 14135, 14174, 14221, 14276, 14339, 14411, 14491, 14579, 14675, 14778, 14889,
    15006, 15129, 15258, 15391, 15528, 15668, 15811, 15955, 16099, 16243, 16386, 16527, 16665, 16798, 16928, 17052,
    17169, 17280, 17383, 17479, 17566, 17644, 17713, 17773, 17823, 17864, 17896, 17919, 17933, 17938, 17936, 17926,
    17909, 17886, 17858, 17826, 17789, 17750, 17710, 17668, 17627, 17587, 17550, 17516, 17486, 17461, 17442, 17430,
    17426, 17431, 17444, 17467, 17500, 17543, 17597, 17661, 17736, 17822, 17918, 18025, 18141, 18267, 18401, 18543,
    18692, 18848, 19009, 19174, 19342, 19513, 19684, 19856, 20026, 20193, 20357, 20516, 20669, 20815, 20953, 21082,
    21202, 21311, 21408, 21495, 21569, 21630, 21679, 21715, 21739, 21750, 21749, 21736, 21712, 21678, 21634, 21582,
    21521, 21455, 21382, 21306, 21227, 21147, 21066, 20987, 20911, 20839, 20772, 20713, 20661, 20620, 20589, 20569,
    20563, 20569, 20591, 20627, 20678, 20745, 20827, 20926, 21040, 21169, 21312, 21470, 21641, 21825, 22019, 22224,
    22437, 22657, 22883, 23113, 23345, 23577, 23808, 24036, 24259, 24476, 24683, 24881, 25066, 25238, 25395, 25536,
    25660, 25765, 25850, 25916, 25961, 25985, 25988, 25970, 25932, 25873, 25795, 25699, 25586, 25457, 25314, 25158,
    24992, 24817, 24636, 24450, 24263, 24077, 23894, 23717, 23549, 23391, 23248, 23120, 23011, 22923, 22858, 22817,
    22803, 22818, 22861, 22936, 23042, 23180, 23350, 23552, 23786, 24051, 24346, 24670, 25021, 25396, 25795, 26213,
    26648, 27097, 27556, 28021, 28489, 28956, 29416, 29865, 30300, 30715, 31104, 31465, 31791, 32078, 32321, 32516,
    32658, 32743, 32767, 32726, 32618, 32437, 32183, 31851, 31441, 30950, 30377, 29721, 28983, 28160, 27256, 26269,
    25202, 24057, 22835, 21541, 20176, 18745, 17251, 15700, 14095, 12442, 10746, 9013, 7249, 5459, 3650, 1828,
    0, -1828, -3650, -5459, -7249, -9013, -10746, -12442, -14095, -15700, -17251, -18745, -20176, -21541, -22835, -24057,
    -25202, -26269, -27256, -28160, -28983, -29721, -30377, -30950, -31441, -31851, -32183, -32437, -32618, -32726, -32767, -32743,
    -32658, -32516, -32321, -32078, -31791, -31465, -31104, -30715, -30300, -29865, -29416, -28956, -28489, -28021, -27556, -27097,
    -26648, -26213, -25795, -25396, -25021, -24670, -24346, -24051, -23786, -23552, -23350, -23180, -23042, -22936, -22861, -22818,
    -22803, -22817, -22858, -22923, -23011, -23120, -23248, -23391, -23549, -23717, -23894, -24077, -24263, -24450, -24636, -24817,
    -24992, -25158, -25314, -25457, -25586, -25699, -25795, -25873, -25932, -25970, -25988, -25985, -25961, -25916, -25850, -25765,
    -25660, -25536, -25395, -25238, -25066, -24881, -24683, -24476, -24259, -24036, -23808, -23577, -23345, -23113, -22883, -22657,
    -22437, -22224, -22019, -21825, -21641, -21470, -21312, -21169, -21040, -20926, -20827, -20745, -20678, -20627, -20591, -20569,
    -20563, -20569, -20589, -20620, -20661, -20713, -20772, -20839, -20911, -20987, -21066, -21147, -21227, -21306, -21382, -21455,
    -21521, -21582, -21634, -21678, -21712, -21736, -21749, -21750, -21739, -21715, -21679, -21630, -21569, -21495, -21408, -21311,
    -21202, -21082, -20953, -20815, -20669, -20516, -20357, -20193, -20026, -19856, -19684, -19513, -19342, -19174, -19009, -18848,
    -18692, -18543, -18401, -18267, -18141, -18025, -17918, -17822, -17736, -17661, -17597, -17543, -17500, -17467, -17444, -17431,
    -17426, -17430, -17442, -17461, -17486, -17516, -17550, -17587, -17627, -17668, -17710, -17750, -17789, -17826, -17858, -17886,
    -17909, -17926, -17936, -17938, -17933, -17919, -17896, -17864, -17823, -17773, -17713, -17644, -17566, -17479, -17383, -17280,
    -17169, -17052, -16928, -16798, -16665, -16527, -16386, -16243, -16099, -15955, -15811, -15668, -15528, -15391, -15258, -15129,
    -15006, -14889, -14778, -14675, -14579, -14491, -14411, -14339, -14276, -14221, -14174, -14135, -14105, -14082, -14066, -14057,
    -14054, -14056, -14064, -14076, -14092, -14110, -14130, -14152, -14173, -14195, -14215, -14233, -14248, -14260, -14268, -14271,
    -14269, -14260, -14245, -14224, -14195, -14159, -14115, -14064, -14005, -13939, -13865, -13784, -13695, -13601, -13500, -13393,
    -13281, -13164, -13044, -12920, -12794, -12665, -12536, -12406, -12276, -12148, -12021, -11897, -11776, -11659, -11546, -11438,
    -11336, -11239, -11149, -11065, -10988, -10918, -10855, -10800, -10751, -10709, -10674, -10646, -10623, -10607, -10596, -10589,
    -10587, -10589, -10594, -10601, -10611, -10621, -10632, -10642, -10652, -10660, -10665, -10668, -10667, -10662, -10653, -10638,
    -10618, -10593, -10560, -10522, -10477, -10426, -10367, -10302, -10231, -10153, -10069, -9979, -9884, -9784, -9678, -9569,
    -9457, -9341, -9223, -9103, -8982, -8860, -8739, -8619, -8500, -8383, -8269, -8158, -8051, -7949, -7851, -7759,
    -7671, -7590, -7515, -7446, -7383, -7327, -7277, -7233, -7196, -7164, -7138, -7117, -7101, -7089, -7082, -7078,
    -7076, -7077, -7080, -7084, -7088, -7093, -7096, -7098, -7098, -7096, -7090, -7081, -7067, -7049, -7026, -6998,
    -6964, -6924, -6879, -6827, -6769, -6705, -6635, -6560, -6478, -6391, -6299, -6203, -6102, -5997, -5888, -5777,
    -5664, -5549, -5433, -5316, -5199, -5084, -4969, -4856, -4746, -4639, -4535, -4436, -4340, -4250, -4164, -4084,
    -4010, -3942, -3879, -3822, -3771, -3726, -3687, -3654, -3625, -3602, -3583, -3569, -3558, -3550, -3546, -3544,
    -3543, -3543, -3544, -3545, -3545, -3544, -3542, -3536, -3528, -3517, -3501, -3482, -3457, -3428, -3393, -3353,
    -3308, -3256, -3199, -3135, -3066, -2992, -2911, -2826, -2736, -2641, -2542, -2439, -2333, -2224, -2113, -2000,
    -1886, -1772, -1657, -1544, -1431, -1320, -1212, -1106, -1003, -905, -810, -721, -636, -556, -482, -413,
    -351, -293, -242, -197, -157, -122, -93, -68, -48, -33, -21, -12, -6, -3, -1, 0,
];

/// Band 6 of the band-limited sawtooth wave.
#[verifier::opaque]
pub const SAWTOOTH_BAND_6: [i16; 1024] = [
    0, 0, 0, 1, 2, 3, 6, 9, 14, 20, 27, 36, 46, 58, 73, 89,
    107, 128, 152, 177, 206, 237, 271, 307, 347, 390, 436, 484, 536, 591, 649, 710,
    775, 842, 913, 987, 1063, 1143, 1226, 1312, 1400, 1491, 1585, 1682, 1781, 1882, 1986, 2092,
    2199, 2309, 2421, 2534, 2648, 2764, 2882, 3000, 3119, 3239, 3359, 3480, 3601, 3722, 3843, 3964,
    4084, 4204, 4323, 4441, 4558, 4674, 4789, 4902, 5013, 5122, 5230, 5335, 5438, 5539, 5638, 5733,
    5827, 5917, 6005, 6090, 6171, 6250, 6326, 6398, 6467, 6533, 6596, 6656, 6712, 6765, 6815, 6862,
    6905, 6945, 6982, 7017, 7048, 7076, 7101, 7124, 7144, 7162, 7177, 7189, 7200, 7208, 7215, 7220,
    7223, 7225, 7225, 7224, 7222, 7220, 7216, 7212, 7208, 7204, 7200, 7195, 7192, 7188, 7186, 7184,
    7184, 7184, 7186, 7190, 7195, 7202, 7212, 7223, 7236, 7252, 7271, 7292, 7316, 7343, 7373, 7406,
    7442, 7481, 7524, 7570, 7619, 7672, 7728, 7788, 7851, 7918, 7988, 8062, 8139, 8219, 8303, 8391,
    8481, 8575, 8672, 8772, 8874, 8980, 9088, 9199, 9312, 9428, 9546, 9665, 9787, 9910, 10035, 10161,
    10289, 10417, 10546, 10676, 10807, 10937, 11068, 11199, 11329, 11459, 11588, 11716, 11843, 11969, 12094, 12216,
    12338, 12457, 12574, 12688, 12800, 12910, 13017, 13121, 13222, 13319, 13414, 13505, 13593, 13677, 13757, 13834,
    13907, 13976, 14041, 14102, 14160, 14213, 14263, 14308, 14350, 14388, 14422, 14452, 14478, 14501, 14520, 14536,
    14549, 14558, 14564, 14567, 14567, 14564, 14559, 14552, 14542, 14530, 14517, 14501, 14484, 14466, 14447, 14427,
    14407, 14386, 14364, 14343, 14322, 14301, 14281, 14262, 14244, 14228, 14213, 14199, 14188, 14179, 14172, 14168,
    14167, 14168, 14173, 14181, 14192, 14207, 14226, 14248, 14275, 14306, 14341, 14380, 14424, 14472, 14525, 14583,
    14645, 14711, 14783, 14859, 14940, 15025, 15115, 15210, 15309, 15413, 15521, 15633, 15749, 15869, 15994, 16122,
    16253, 16388, 16526, 16667, 16811, 16958, 17107, 17258, 17411, 17566, 17723, 17880, 18039, 18198, 18358, 18518,
    18678, 18837, 18996, 19154, 19311, 19467, 19620, 19772, 19921, 20068, 20212, 20353, 20491, 20625, 20756, 20882,
    21004, 21122, 21235, 21344, 21447, 21546, 21639, 21726, 21808, 21885, 21955, 22020, 22079, 22132, 22179, 22219,
    22254, 22283, 22305, 22322, 22333, 22337, 22336, 22330, 22318, 22300, 22277, 22249, 22216, 22179, 22137, 22090,
    22040, 21986, 21928, 21867, 21804, 21737, 21668, 21598, 21525, 21451, 21377, 21301, 21226, 21150, 21075, 21001,
    20928, 20857, 20788, 20721, 20656, 20595, 20538, 20484, 20434, 20390, 20350, 20315, 20286, 20263, 20246, 20235,
    20232, 20235, 20246, 20265, 20291, 20326, 20369, 20420, 20480, 20548, 20626, 20712, 20807, 20912, 21025, 21148,
    21280, 21420, 21570, 21729, 21896, 22072, 22257, 22450, 22651, 22860, 23076, 23300, 23531, 23768, 24012, 24262,
    24517, 24778, 25043, 25313, 25586, 25862, 26141, 26422, 26705, 26989, 27274, 27558, 27841, 28123, 28403, 28680,
    28954, 29224, 29489, 29749, 30003, 30250, 30489, 30721, 30943, 31156, 31359, 31551, 31731, 31899, 32054, 32196,
    32323, 32436, 32533, 32614, 32679, 32726, 32756, 32767, 32760, 32733, 32687, 32620, 32533, 32425, 32296, 32146,
    31973, 31778, 31561, 31321, 31058, 30772, 30464, 30132, 29776, 29398, 28997, 28572, 28124, 27653, 27160, 26644,
    26105, 25544, 24962, 24358, 23733, 23087, 22421, 21735, 21029, 20305, 19562, 18802, 18024, 17230, 16420, 15595,
    14755, 13902, 13035, 12157, 11266, 10366, 9455, 8535, 7608, 6673, 5731, 4785, 3833, 2878, 1920, 961,
    0, -961, -1920, -2878, -3833, -4785, -5731, -6673, -7608, -8535, -9455, -10366, -11266, -12157, -13035, -13902,
    -14755, -15595, -16420, -17230, -18024, -18802, -19562, -20305, -21029, -21735, -22421, -23087, -23733, -24358, -24962, -25544,
    -26105, -26644, -27160, -27653, -28124, -28572, -28997, -29398, -29776, -30132, -30464, -30772, -31058, -31321, -31561, -31778,
    -31973, -32146, -32296, -32425, -32533, -32620, -32687, -32733, -32760, -32767, -32756, -32726, -32679, -32614, -32533, -32436,
    -32323, -32196, -32054, -31899, -31731, -31551, -31359, -31156, -30943, -30721, -30489, -30250, -30003, -29749, -29489, -29224,
    -28954, -28680, -28403, -28123, -27841, -27558, -27274, -26989, -26705, -26422, -26141, -25862, -25586, -25313, -25043, -24778,
    -24517, -24262, -24012, -23768, -23531, -23300, -23076, -22860, -22651, -22450, -22257, -22072, -21896, -21729, -21570, -21420,
    -21280, -21148, -21025, -20912, -20807, -20712, -20626, -20548, -20480, -20420, -20369, -20326, -20291, -20265, -20246, -20235,
    -20232, -20235, -20246, -20263, -20286, -20315, -20350, -20390, -20434, -20484, -20538, -20595, -20656, -20721, -20788, -20857,
    -20928, -21001, -21075, -21150, -21226, -21301, -21377, -21451, -21525, -21598, -21668, -21737, -21804, -21867, -21928, -21986,
    -22040, -22090, -22137, -22179, -22216, -22249, -22277, -22300, -22318, -22330, -22336, -22337, -22333, -22322, -22305, -22283,
    -22254, -22219, -22179, -22132, -22079, -22020, -21955, -21885, -21808, -21726, -21639, -21546, -21447, -21344, -21235, -21122,
    -21004, -20882, -20756, -20625, -20491, -20353, -20212, -20068, -19921, -19772, -19620, -19467, -19311, -19154, -18996, -18837,
    -18678, -18518, -18358, -18198, -18039, -17880, -17723, -17566, -17411, -17258, -17107, -16958, -16811, -16667, -16526, -16388,
    -16253, -16122, -15994, -15869, -15749, -15633, -15521, -15413, -15309, -15210, -15115, -15025, -14940, -14859, -14783, -14711,
    -14645, -14583, -14525, -14472, -14424, -14380, -14341, -14306, -14275, -14248, -14226, -14207, -14192, -14181, -14173, -14168,
    -14167, -14168, -14172, -14179, -14188, -14199, -14213, -14228, -14244, -14262, -14281, -14301, -14322, -14343, -14364, -14386,
    -14407, -14427, -14447, -14466, -14484, -14501, -14517, -14530, -14542, -14552, -14559, -14564, -14567, -14567, -14564, -14558,
    -14549, -14536, -14520, -14501, -14478, -14452, -14422, -14388, -14350, -14308, -14263, -14213, -14160, -14102, -14041, -13976,
    -13907, -13834, -13757, -13677, -13593, -13505, -13414, -13319, -13222, -13121, -13017, -12910, -12800, -12688, -12574, -12457,
    -12338, -12216, -12094, -11969, -11843, -11716, -11588, -11459, -11329, -11199, -11068, -10937, -10807, -10676, -10546, -10417,
    -10289, -10161, -10035, -9910, -9787, -9665, -9546, -9428, -9312, -9199, -9088, -8980, -8874, -8772, -8672, -8575,
    -8481, -8391, -8303, -8219, -8139, -8062, -7988, -7918, -7851, -7788, -7728, -7672, -7619, -7570, -7524, -7481,
    -7442, -7406, -7373, -7343, -7316, -7292, -7271, -7252, -7236, -7223, -7212, -7202, -7195, -7190, -7186, -7184,
    -7184, -7184, -7186, -7188, -7192, -7195, -7200, -7204, -7208, -7212, -7216, -7220, -7222, -7224, -7225, -7225,
    -7223, -7220, -7215, -7208, -7200, -7189, -7177, -7162, -7144, -7124, -7101, -7076, -7048, -7017, -6982, -6945,
    -6905, -6862, -6815, -6765, -6712, -6656, -6596, -6533, -6467, -6398, -6326, -6250, -6171, -6090, -6005, -5917,
    -5827, -5733, -5638, -5539, -5438, -5335, -5230, -5122, -5013, -4902, -4789, -4674, -4558, -4441, -4323, -4204,
    -4084, -3964, -3843, -3722, -3601, -3480, -3359, -3239, -3119, -3000, -2882, -2764, -2648, -2534, -2421, -2309,
    -2199, -2092, -1986, -1882, -1781, -1682, -1585, -1491, -1400, -1312, -1226, -1143, -1063, -987, -913, -842,
    -775, -710, -649, -591, -536, -484, -436, -390, -347, -307, -271, -237, -206, -177, -152, -128,
    -107, -89, -73, -58, -46, -36, -27, -20, -14, -9, -6, -3, -2, -1, 0, 0,
];

/// Band 7 of the band-limited sawtooth wave.
#[verifier::opaque]
pub const SAWTOOTH_BAND_7: [i16; 1024] = [
    0, 0, 0, 0, 1, 1, 2, 3, 4, 6, 8, 11, 14, 18, 23, 28,
    34, 40, 48, 56, 65, 75, 86, 99, 112, 126, 142, 158, 176, 195, 216, 238,
    261, 286, 312, 339, 368, 398, 430, 464, 499, 536, 574, 615, 656, 700, 745, 792,
    841, 892, 944, 998, 1054, 1112, 1171, 1233, 1296, 1361, 1428, 1497, 1568, 1640, 1714, 1790,
    1868, 1948, 2030, 2113, 2199, 2286, 2375, 2465, 2557, 2651, 2747, 2845, 2944, 3044, 3147, 3250,
    3356, 3463, 3571, 3681, 3793, 3906, 4020, 4136, 4252, 4371, 4490, 4611, 4732, 4855, 4979, 5104,
    5230, 5357, 5485, 5614, 5743, 5874, 6005, 6136, 6269, 6402, 6535, 6669, 6803, 6938, 7073, 7209,
    7344, 7480, 7616, 7752, 7887, 8023, 8159, 8295, 8430, 8565, 8700, 8835, 8969, 9103, 9236, 9368,
    9500, 9632, 9762, 9892, 10021, 10149, 10276, 10403, 10528, 10652, 10775, 10897, 11018, 11137, 11255, 11372,
    11487, 11601, 11714, 11825, 11934, 12042, 12149, 12253, 12356, 12458, 12557, 12655, 12751, 12845, 12937, 13028,
    13116, 13203, 13287, 13370, 13450, 13529, 13605, 13680, 13752, 13823, 13891, 13957, 14021, 14083, 14143, 14201,
    14256, 14310, 14361, 14411, 14458, 14503, 14546, 14587, 14625, 14662, 14697, 14730, 14760, 14789, 14816, 14840,
    14863, 14884, 14903, 14920, 14936, 14949, 14961, 14971, 14979, 14986, 14991, 14994, 14996, 14997, 14996, 14993,
    14990, 14985, 14978, 14970, 14962, 14952, 14941, 14929, 14916, 14902, 14887, 14872, 14855, 14838, 14821, 14802,
    14784, 14765, 14745, 14725, 14705, 14685, 14664, 14644, 14624, 14603, 14583, 14563, 14543, 14523, 14504, 14486,
    14468, 14450, 14433, 14417, 14402, 14387, 14374, 14361, 14350, 14339, 14330, 14322, 14315, 14310, 14306, 14304,
    14303, 14304, 14307, 14311, 14317, 14325, 14334, 14346, 14360, 14376, 14394, 14414, 14436, 14460, 14487, 14516,
    14548, 14582, 14619, 14658, 14699, 14743, 14790, 14840, 14892, 14947, 15004, 15065, 15128, 15194, 15262, 15334,
    15409, 15486, 15567, 15650, 15736, 15825, 15917, 16012, 16110, 16211, 16315, 16421, 16531, 16643, 16759, 16877,
    16998, 17123, 17249, 17379, 17512, 17647, 17785, 17925, 18069, 18215, 18363, 18514, 18668, 18824, 18983, 19143,
    19307, 19472, 19640, 19810, 19981, 20155, 20331, 20509, 20689, 20870, 21054, 21239, 21425, 21613, 21802, 21993,
    22185, 22378, 22572, 22767, 22963, 23160, 23357, 23556, 23754, 23954, 24153, 24353, 24553, 24753, 24953, 25153,
    25352, 25552, 25750, 25949, 26146, 26343, 26539, 26734, 26928, 27120, 27311, 27501, 27689, 27876, 28061, 28244,
    28425, 28604, 28780, 28954, 29126, 29295, 29462, 29626, 29787, 29944, 30099, 30250, 30399, 30543, 30684, 30822,
    30955, 31085, 31211, 31332, 31449, 31562, 31671, 31775, 31875, 31969, 32059, 32144, 32224, 32299, 32369, 32433,
    32492, 32545, 32593, 32636, 32672, 32703, 32728, 32747, 32760, 32766, 32767, 32761, 32749, 32731, 32706, 32675,
    32637, 32593, 32542, 32484, 32420, 32348, 32270, 32185, 32093, 31995, 31889, 31776, 31656, 31529, 31395, 31254,
    31106, 30951, 30788, 30618, 30442, 30258, 30067, 29869, 29663, 29451, 29232, 29005, 28771, 28531, 28283, 28028,
    27767, 27498, 27223, 26941, 26651, 26356, 26053, 25744, 25428, 25106, 24777, 24442, 24100, 23752, 23398, 23038,
    22672, 22299, 21921, 21537, 21147, 20752, 20351, 19944, 19532, 19115, 18693, 18266, 17833, 17396, 16954, 16508,
    16057, 15601, 15142, 14678, 14210, 13738, 13262, 12783, 12300, 11813, 11324, 10831, 10335, 9836, 9335, 8831,
    8324, 7815, 7304, 6791, 6276, 5759, 5241, 4721, 4200, 3678, 3154, 2630, 2105, 1579, 1053, 527,
    0, -527, -1053, -1579, -2105, -2630, -3154, -3678, -4200, -4721, -5241, -5759, -6276, -6791, -7304, -7815,
    -8324, -8831, -9335, -9836, -10335, -10831, -11324, -11813, -12300, -12783, -13262, -13738, -14210, -14678, -15142, -15601,
    -16057, -16508, -16954, -17396, -17833, -18266, -18693, -19115, -19532, -19944, -20351, -20752, -21147, -21537, -21921, -22299,
    -22672, -23038, -23398, -23752, -24100, -24442, -24777, -25106, -25428, -25744, -26053, -26356, -26651, -26941, -27223, -27498,
    -27767, -28028, -28283, -28531, -28771, -29005, -29232, -29451, -29663, -29869, -30067, -30258, -30442, -30618, -30788, -30951,
    -31106, -31254, -31395, -31529, -31656, -31776, -31889, -31995, -32093, -32185, -32270, -32348, -32420, -32484, -32542, -32593,
    -32637, -32675, -32706, -32731, -32749, -32761, -32767, -32766, -32760, -32747, -32728, -32703, -32672, -32636, -32593, -32545,
    -32492, -32433, -32369, -32299, -32224, -32144, -32059, -31969, -31875, -31775, -31671, -31562, -31449, -31332, -31211, -31085,
    -30955, -30822, -30684, -30543, -30399, -30250, -30099, -29944, -29787, -29626, -29462, -29295, -29126, -28954, -28780, -28604,
    -28425, -28244, -28061, -27876, -27689, -27501, -27311, -27120, -26928, -26734, -26539, -26343, -26146, -25949, -25750, -25552,
    -25352, -25153, -24953, -24753, -24553, -24353, -24153, -23954, -23754, -23556, -23357, -23160, -22963, -22767, -22572, -22378,
    -22185, -21993, -21802, -21613, -21425, -21239, -21054, -20870, -20689, -20509, -20331, -20155, -19981, -19810, -19640, -19472,
    -19307, -19143, -18983, -18824, -18668, -18514, -18363, -18215, -18069, -17925, -17785, -17647, -17512, -17379, -17249, -17123,
    -16998, -16877, -16759, -16643, -16531, -16421, -16315, -16211, -16110, -16012, -15917, -15825, -15736, -15650, -15567, -15486,
    -15409, -15334, -15262, -15194, -15128, -15065, -15004, -14947, -14892, -14840, -14790, -14743, -14699, -14658, -14619, -14582,
    -14548, -14516, -14487, -14460, -14436, -14414, -14394, -14376, -14360, -14346, -14334, -14325, -14317, -14311, -14307, -14304,
    -14303, -14304, -14306, -14310, -14315, -14322, -14330, -14339, -14350, -14361, -14374, -14387, -14402, -14417, -14433, -14450,
    -14468, -14486, -14504, -14523, -14543, -14563, -14583, -14603, -14624, -14644, -14664, -14685, -14705, -14725, -14745, -14765,
    -14784, -14802, -14821, -14838, -14855, -14872, -14887, -14902, -14916, -14929, -14941, -14952, -14962, -14970, -14978, -14985,
    -14990, -14993, -14996, -14997, -14996, -14994, -14991, -14986, -14979, -14971, -14961, -14949, -14936, -14920, -14903, -14884,
    -14863, -14840, -14816, -14789, -14760, -14730, -14697, -14662, -14625, -14587, -14546, -14503, -14458, -14411, -14361, -14310,
    -14256, -14201, -14143, -14083, -14021, -13957, -13891, -13823, -13752, -13680, -13605, -13529, -13450, -13370, -13287, -13203,
    -13116, -13028, -12937, -12845, -12751, -12655, -12557, -12458, -12356, -12253, -12149, -12042, -11934, -11825, -11714, -11601,
    -11487, -11372, -11255, -11137, -11018, -10897, -10775, -10652, -10528, -10403, -10276, -10149, -10021, -9892, -9762, -9632,
    -9500, -9368, -9236, -9103, -8969, -8835, -8700, -8565, -8430, -8295, -8159, -8023, -7887, -7752, -7616, -7480,
    -7344, -7209, -7073, -6938, -6803, -6669, -6535, -6402, -6269, -6136, -6005, -5874, -5743, -5614, -5485, -5357,
    -5230, -5104, -4979, -4855, -4732, -4611, -4490, -4371, -4252, -4136, -4020, -3906, -3793, -3681, -3571, -3463,
    -3356, -3250, -3147, -3044, -2944, -2845, -2747, -2651, -2557, -2465, -2375, -2286, -2199, -2113, -2030, -1948,
    -1868, -1790, -1714, -1640, -1568, -1497, -1428, -1361, -1296, -1233, -1171, -1112, -1054, -998, -944, -892,
    -841, -792, -745, -700, -656, -615, -574, -536, -499, -464, -430, -398, -368, -339, -312, -286,
    -261, -238, -216, -195, -176, -158, -142, -126, -112, -99, -86, -75, -65, -56, -48, -40,
    -34, -28, -23, -18, -14, -11, -8, -6, -4, -3, -2, -1, -1, 0, 0, 0,
];

/// Band 8 of the band-limited sawtooth wave.
#[verifier::opaque]
pub const SAWTOOTH_BAND_8: [i16; 1024] = [
    0, 0, 0, 0, 0, 0, 1, 1, 1, 2, 3, 4, 5, 6, 8, 10,
    12, 14, 17, 20, 23, 27, 31, 35, 40, 45, 51, 57, 63, 70, 78, 86,
    95, 104, 113, 123, 134, 146, 158, 170, 184, 198, 212, 228, 244, 260, 278, 296,
    315, 335, 356, 377, 399, 422, 446, 471, 497, 523, 551, 579, 608, 638, 670, 702,
    735, 769, 804, 840, 877, 915, 954, 994, 1035, 1078, 1121, 1165, 1211, 1258, 1305, 1354,
    1404, 1455, 1507, 1561, 1615, 1671, 1728, 1786, 1845, 1905, 1967, 2030, 2094, 2159, 2225, 2293,
    2362, 2432, 2503, 2576, 2649, 2724, 2801, 2878, 2957, 3037, 3118, 3201, 3285, 3370, 3456, 3543,
    3632, 3722, 3814, 3906, 4000, 4095, 4192, 4289, 4388, 4488, 4590, 4692, 4796, 4901, 5008, 5115,
    5224, 5334, 5445, 5558, 5672, 5787, 5903, 6020, 6139, 6258, 6379, 6501, 6624, 6749, 6874, 7001,
    7129, 7258, 7388, 7519, 7651, 7785, 7919, 8055, 8191, 8329, 8468, 8607, 8748, 8890, 9033, 9176,
    9321, 9467, 9613, 9761, 9910, 10059, 10209, 10361, 10513, 10666, 10819, 10974, 11129, 11286, 11443, 11601,
    11759, 11918, 12079, 12239, 12401, 12563, 12726, 12889, 13053, 13218, 13383, 13549, 13715, 13882, 14050, 14218,
    14386, 14555, 14724, 14894, 15064, 15235, 15406, 15577, 15749, 15921, 16093, 16265, 16438, 16611, 16784, 16958,
    17131, 17305, 17479, 17653, 17827, 18001, 18175, 18349, 18523, 18697, 18871, 19045, 19219, 19393, 19566, 19740,
    19913, 20086, 20259, 20432, 20604, 20776, 20948, 21119, 21290, 21461, 21631, 21801, 21970, 22139, 22307, 22475,
    22642, 22809, 22975, 23140, 23305, 23469, 23633, 23796, 23958, 24119, 24279, 24439, 24598, 24756, 24913, 25069,
    25224, 25378, 25532, 25684, 25835, 25986, 26135, 26283, 26430, 26576, 26721, 26864, 27006, 27147, 27287, 27426,
    27563, 27699, 27834, 27967, 28099, 28229, 28358, 28486, 28612, 28737, 28860, 28982, 29102, 29220, 29337, 29452,
    29566, 29678, 29788, 29897, 30004, 30109, 30212, 30314, 30414, 30511, 30608, 30702, 30794, 30885, 30973, 31060,
    31145, 31228, 31308, 31387, 31464, 31539, 31611, 31682, 31751, 31817, 31881, 31944, 32004, 32062, 32117, 32171,
    32222, 32271, 32318, 32363, 32405, 32445, 32483, 32518, 32552, 32582, 32611, 32637, 32661, 32682, 32701, 32718,
    32732, 32744, 32753, 32760, 32765, 32767, 32767, 32764, 32758, 32750, 32740, 32727, 32712, 32694, 32674, 32651,
    32625, 32597, 32567, 32533, 32498, 32459, 32419, 32375, 32329, 32281, 32230, 32176, 32119, 32061, 31999, 31935,
    31868, 31799, 31727, 31653, 31576, 31496, 31414, 31329, 31241, 31151, 31058, 30963, 30865, 30765, 30662, 30556,
    30448, 30338, 30224, 30108, 29990, 29869, 29745, 29619, 29491, 29360, 29226, 29090, 28951, 28810, 28667, 28520,
    28372, 28221, 28067, 27911, 27753, 27592, 27429, 27263, 27095, 26925, 26752, 26577, 26399, 26219, 26037, 25853,
    25666, 25477, 25285, 25092, 24896, 24698, 24498, 24295, 24091, 23884, 23675, 23464, 23251, 23035, 22818, 22599,
    22377, 22154, 21928, 21701, 21471, 21240, 21006, 20771, 20534, 20295, 20054, 19811, 19567, 19320, 19072, 18823,
    18571, 18318, 18063, 17806, 17548, 17288, 17026, 16763, 16499, 16233, 15965, 15696, 15425, 15153, 14880, 14605,
    14329, 14052, 13773, 13493, 13212, 12929, 12645, 12360, 12074, 11787, 11499, 11209, 10919, 10628, 10335, 10042,
    9747, 9452, 9156, 8859, 8561, 8263, 7963, 7663, 7362, 7061, 6758, 6456, 6152, 5848, 5544, 5238,
    4933, 4627, 4320, 4013, 3706, 3399, 3091, 2782, 2474, 2165, 1856, 1547, 1238, 929, 619, 310,
    0, -310, -619, -929, -1238, -1547, -1856, -2165, -2474, -2782, -3091, -3399, -3706, -4013, -4320, -4627,
    -4933, -5238, -5544, -5848, -6152, -6456, -6758, -7061, -7362, -7663, -7963, -8263, -8561, -8859, -9156, -9452,
    -9747, -10042, -10335, -10628, -10919, -11209, -11499, -11787, -12074, -12360, -12645, -12929, -13212, -13493, -13773, -14052,
    -14329, -14605, -14880, -15153, -15425, -15696, -15965, -16233, -16499, -16763, -17026, -17288, -17548, -17806, -18063, -18318,
    -18571, -18823, -19072, -19320, -19567, -19811, -20054, -20295, -20534, -20771, -21006, -21240, -21471, -21701, -21928, -22154,
    -22377, -22599, -22818, -23035, -23251, -23464, -23675, -23884, -24091, -24295, -24498, -24698, -24896, -25092, -25285, -25477,
    -25666, -25853, -26037, -26219, -26399, -26577, -26752, -26925, -27095, -27263, -27429, -27592, -27753, -27911, -28067, -28221,
    -28372, -28520, -28667, -28810, -28951, -29090, -29226, -29360, -29491, -29619, -29745, -29869, -29990, -30108, -30224, -30338,
    -30448, -30556, -30662, -30765, -30865, -30963, -31058, -31151, -31241, -31329, -31414, -31496, -31576, -31653, -31727, -31799,
    -31868, -31935, -31999, -32061, -32119, -32176, -32230, -32281, -32329, -32375, -32419, -32459, -32498, -32533, -32567, -32597,
    -32625, -32651, -32674, -32694, -32712, -32727, -32740, -32750, -32758, -32764, -32767, -32767, -32765, -32760, -32753, -32744,
    -32732, -32718, -32701, -32682, -32661, -32637, -32611, -32582, -32552, -32518, -32483, -32445, -32405, -32363, -32318, -32271,
    -32222, -32171, -32117, -32062, -32004, -31944, -31881, -31817, -31751, -31682, -31611, -31539, -31464, -31387, -31308, -31228,
    -31145, -31060, -30973, -30885, -30794, -30702, -30608, -30511, -30414, -30314, -30212, -30109, -30004, -29897, -29788, -29678,
    -29566, -29452, -29337, -29220, -29102, -28982, -28860, -28737, -28612, -28486, -28358, -28229, -28099, -27967, -27834, -27699,
    -27563, -27426, -27287, -27147, -27006, -26864, -26721, -26576, -26430, -26283, -26135, -25986, -25835, -25684, -25532, -25378,
    -25224, -25069, -24913, -24756, -24598, -24439, -24279, -24119, -23958, -23796, -23633, -23469, -23305, -23140, -22975, -22809,
    -22642, -22475, -22307, -22139, -21970, -21801, -21631, -21461, -21290, -21119, -20948, -20776, -20604, -20432, -20259, -20086,
    -19913, -19740, -19566, -19393, -19219, -19045, -18871, -18697, -18523, -18349, -18175, -18001, -17827, -17653, -17479, -17305,
    -17131, -16958, -16784, -16611, -16438, -16265, -16093, -15921, -15749, -15577, -15406, -15235, -15064, -14894, -14724, -14555,
    -14386, -14218, -14050, -13882, -13715, -13549, -13383, -13218, -13053, -12889, -12726, -12563, -12401, -12239, -12079, -11918,
    -11759, -11601, -11443, -11286, -11129, -10974, -10819, -10666, -10513, -10361, -10209, -10059, -9910, -9761, -9613, -9467,
    -9321, -9176, -9033, -8890, -8748, -8607, -8468, -8329, -8191, -8055, -7919, -7785, -7651, -7519, -7388, -7258,
    -7129, -7001, -6874, -6749, -6624, -6501, -6379, -6258, -6139, -6020, -5903, -5787, -5672, -5558, -5445, -5334,
    -5224, -5115, -5008, -4901, -4796, -4692, -4590, -4488, -4388, -4289, -4192, -4095, -4000, -3906, -3814, -3722,
    -3632, -3543, -3456, -3370, -3285, -3201, -3118, -3037, -2957, -2878, -2801, -2724, -2649, -2576, -2503, -2432,
    -2362, -2293, -2225, -2159, -2094, -2030, -1967, -1905, -1845, -1786, -1728, -1671, -1615, -1561, -1507, -1455,
    -1404, -1354, -1305, -1258, -1211, -1165, -1121, -1078, -1035, -994, -954, -915, -877, -840, -804, -769,
    -735, -702, -670, -638, -608, -579, -551, -523, -497, -471, -446, -422, -399, -377, -356, -335,
    -315, -296, -278, -260, -244, -228, -212, -198, -184, -170, -158, -146, -134, -123, -113, -104,
    -95, -86, -78, -70, -63, -57, -51, -45, -40, -35, -31, -27, -23, -20, -17, -14,
    -12, -10, -8, -6, -5, -4, -3, -2, -1, -1, -1, 0, 0, 0, 0, 0,
];

/// Band 9 of the band-limited sawtooth wave.
#[verifier::opaque]
pub const SAWTOOTH_BAND_9: [i16; 1024] = [
    0, 201, 402, 603, 804, 1005, 1206, 1407, 1608, 1809, 2009, 2210, 2410, 2611, 2811, 3012,
    3212, 3412, 3612, 3811, 4011, 4210, 4410, 4609, 4808, 5007, 5205, 5404, 5602, 5800, 5998, 6195,
    6393, 6590, 6786, 6983, 7179, 7375, 7571, 7767, 7962, 8157, 8351, 8545, 8739, 8933, 9126, 9319,
    9512, 9704, 9896, 10087, 10278, 10469, 10659, 10849, 11039, 11228, 11417, 11605, 11793, 11980, 12167, 12353,
    12539, 12725, 12910, 13094, 13279, 13462, 13645, 13828, 14010, 14191, 14372, 14553, 14732, 14912, 15090, 15269,
    15446, 15623, 15800, 15976, 16151, 16325, 16499, 16673, 16846, 17018, 17189, 17360, 17530, 17700, 17869, 18037,
    18204, 18371, 18537, 18703, 18868, 19032, 19195, 19357, 19519, 19680, 19841, 20000, 20159, 20317, 20475, 20631,
    20787, 20942, 21096, 21250, 21403, 21554, 21705, 21856, 22005, 22154, 22301, 22448, 22594, 22739, 22884, 23027,
    23170, 23311, 23452, 23592, 23731, 23870, 24007, 24143, 24279, 24413, 24547, 24680, 24811, 24942, 25072, 25201,
    25329, 25456, 25582, 25708, 25832, 25955, 26077, 26198, 26319, 26438, 26556, 26674, 26790, 26905, 27019, 27133,
    27245, 27356, 27466, 27575, 27683, 27790, 27896, 28001, 28105, 28208, 28310, 28411, 28510, 28609, 28706, 28803,
    28898, 28992, 29085, 29177, 29268, 29358, 29447, 29534, 29621, 29706, 29791, 29874, 29956, 30037, 30117, 30195,
    30273, 30349, 30424, 30498, 30571, 30643, 30714, 30783, 30852, 30919, 30985, 31050, 31113, 31176, 31237, 31297,
    31356, 31414, 31470, 31526, 31580, 31633, 31685, 31736, 31785, 31833, 31880, 31926, 31971, 32014, 32057, 32098,
    32137, 32176, 32213, 32250, 32285, 32318, 32351, 32382, 32412, 32441, 32469, 32495, 32521, 32545, 32567, 32589,
    32609, 32628, 32646, 32663, 32678, 32692, 32705, 32717, 32728, 32737, 32745, 32752, 32757, 32761, 32765, 32766,
    32767, 32766, 32765, 32761, 32757, 32752, 32745, 32737, 32728, 32717, 32705, 32692, 32678, 32663, 32646, 32628,
    32609, 32589, 32567, 32545, 32521, 32495, 32469, 32441, 32412, 32382, 32351, 32318, 32285, 32250, 32213, 32176,
    32137, 32098, 32057, 32014, 31971, 31926, 31880, 31833, 31785, 31736, 31685, 31633, 31580, 31526, 31470, 31414,
    31356, 31297, 31237, 31176, 31113, 31050, 30985, 30919, 30852, 30783, 30714, 30643, 30571, 30498, 30424, 30349,
    30273, 30195, 30117, 30037, 29956, 29874, 29791, 29706, 29621, 29534, 29447, 29358, 29268, 29177, 29085, 28992,
    28898, 28803, 28706, 28609, 28510, 28411, 28310, 28208, 28105, 28001, 27896, 27790, 27683, 27575, 27466, 27356,
    27245, 27133, 27019, 26905, 26790, 26674, 26556, 26438, 26319, 26198, 26077, 25955, 25832, 25708, 25582, 25456,
    25329, 25201, 25072, 24942, 24811, 24680, 24547, 24413, 24279, 24143, 24007, 23870, 23731, 23592, 23452, 23311,
    23170, 23027, 22884, 22739, 22594, 22448, 22301, 22154, 22005, 21856, 21705, 21554, 21403, 21250, 21096, 20942,
    20787, 20631, 20475, 20317, 20159, 20000, 19841, 19680, 19519, 19357, 19195, 19032, 18868, 18703, 18537, 18371,
    18204, 18037, 17869, 17700, 17530, 17360, 17189, 17018, 16846, 16673, 16499, 16325, 16151, 15976, 15800, 15623,
    15446, 15269, 15090, 14912, 14732, 14553, 14372, 14191, 14010, 13828, 13645, 13462, 13279, 13094, 12910, 12725,
    12539, 12353, 12167, 11980, 11793, 11605, 11417, 11228, 11039, 10849, 10659, 10469, 10278, 10087, 9896, 9704,
    9512, 9319, 9126, 8933, 8739, 8545, 8351, 8157, 7962, 7767, 7571, 7375, 7179, 6983, 6786, 6590,
    6393, 6195, 5998, 5800, 5602, 5404, 5205, 5007, 4808, 4609, 4410, 4210, 4011, 3811, 3612, 3412,
    3212, 3012, 2811, 2611, 2410, 2210, 2009, 1809, 1608, 1407, 1206, 1005, 804, 603, 402, 201,
    0, -201, -402, -603, -804, -1005, -1206, -1407, -1608, -1809, -2009, -2210, -2410, -2611, -2811, -3012,
    -3212, -3412, -3612, -3811, -4011, -4210, -4410, -4609, -4808, -5007, -5205, -5404, -5602, -5800, -5998, -6195,
    -6393, -6590, -6786, -6983, -7179, -7375, -7571, -7767, -7962, -8157, -8351, -8545, -8739, -8933, -9126, -9319,
    -9512, -9704, -9896, -10087, -10278, -10469, -10659, -10849, -11039, -11228, -11417, -11605, -11793, -11980, -12167, -12353,
    -12539, -12725, -12910, -13094, -13279, -13462, -13645, -13828, -14010, -14191, -14372, -14553, -14732, -14912, -15090, -15269,
    -15446, -15623, -15800, -15976, -16151, -16325, -16499, -16673, -16846, -17018, -17189, -17360, -17530, -17700, -17869, -18037,
    -18204, -18371, -18537, -18703, -18868, -19032, -19195, -19357, -19519, -19680, -19841, -20000, -20159, -20317, -20475, -20631,
    -20787, -20942, -21096, -21250, -21403, -21554, -21705, -21856, -22005, -22154, -22301, -22448, -22594, -22739, -22884, -23027,
    -23170, -23311, -23452, -23592, -23731, -23870, -24007, -24143, -24279, -24413, -24547, -24680, -24811, -24942, -25072, -25201,
    -25329, -25456, -25582, -25708, -25832, -25955, -26077, -26198, -26319, -26438, -26556, -26674, -26790, -26905, -27019, -27133,
    -27245, -27356, -27466, -27575, -27683, -27790, -27896, -28001, -28105, -28208, -28310, -28411, -28510, -28609, -28706, -28803,
    -28898, -28992, -29085, -29177, -29268, -29358, -29447, -29534, -29621, -29706, -29791, -29874, -29956, -30037, -30117, -30195,
    -30273, -30349, -30424, -30498, -30571, -30643, -30714, -30783, -30852, -30919, -30985, -31050, -31113, -31176, -31237, -31297,
    -31356, -31414, -31470, -31526, -31580, -31633, -31685, -31736, -31785, -31833, -31880, -31926, -31971, -32014, -32057, -32098,
    -32137, -32176, -32213, -32250, -32285, -32318, -32351, -32382, -32412, -32441, -32469, -32495, -32521, -32545, -32567, -32589,
    -32609, -32628, -32646, -32663, -32678, -32692, -32705, -32717, -32728, -32737, -32745, -32752, -32757, -32761, -32765, -32766,
    -32767, -32766, -32765, -32761, -32757, -32752, -32745, -32737, -32728, -32717, -32705, -32692, -32678, -32663, -32646, -32628,
    -32609, -32589, -32567, -32545, -32521, -32495, -32469, -32441, -32412, -32382, -32351, -32318, -32285, -32250, -32213, -32176,
    -32137, -32098, -32057, -32014, -31971, -31926, -31880, -31833, -31785, -31736, -31685, -31633, -31580, -31526, -31470, -31414,
    -31356, -31297, -31237, -31176, -31113, -31050, -30985, -30919, -30852, -30783, -30714, -30643, -30571, -30498, -30424, -30349,
    -30273, -30195, -30117, -30037, -29956, -29874, -29791, -29706, -29621, -29534, -29447, -29358, -29268, -29177, -29085, -28992,
    -28898, -28803, -28706, -28609, -28510, -28411, -28310, -28208, -28105, -28001, -27896, -27790, -27683, -27575, -27466, -27356,
    -27245, -27133, -27019, -26905, -26790, -26674, -26556, -26438, -26319, -26198, -26077, -25955, -25832, -25708, -25582, -25456,
    -25329, -25201, -25072, -24942, -24811, -24680, -24547, -24413, -24279, -24143, -24007, -23870, -23731, -23592, -23452, -23311,
    -23170, -23027, -22884, -22739, -22594, -22448, -22301, -22154, -22005, -21856, -21705, -21554, -21403, -21250, -21096, -20942,
    -20787, -20631, -20475, -20317, -20159, -20000, -19841, -19680, -19519, -19357, -19195, -19032, -18868, -18703, -18537, -18371,
    -18204, -18037, -17869, -17700, -17530, -17360, -17189, -17018, -16846, -16673, -16499, -16325, -16151, -15976, -15800, -15623,
    -15446, -15269, -15090, -14912, -14732, -14553, -14372, -14191, -14010, -13828, -13645, -13462, -13279, -13094, -12910, -12725,
    -12539, -12353, -12167, -11980, -11793, -11605, -11417, -11228, -11039, -10849, -10659, -10469, -10278, -10087, -9896, -9704,
    -9512, -9319, -9126, -8933, -8739, -8545, -8351, -8157, -7962, -7767, -7571, -7375, -7179, -6983, -6786, -6590,
    -6393, -6195, -5998, -5800, -5602, -5404, -5205, -5007, -4808, -4609, -4410, -4210, -4011, -3811, -3612, -3412,
    -3212, -3012, -2811, -2611, -2410, -2210, -2009, -1809, -1608, -1407, -1206, -1005, -804, -603, -402, -201,
];

/// The band-limited sawtooth table of `band` (0 to 9).
pub open spec fn sawtooth_table(band: int) -> Seq<i16> {
    if band == 0 {
        SAWTOOTH_BAND_0@
    } else if band == 1 {
        SAWTOOTH_BAND_1@
    } else if band == 2 {
        SAWTOOTH_BAND_2@
    } else if band == 3 {
        SAWTOOTH_BAND_3@
    } else if band == 4 {
        SAWTOOTH_BAND_4@
    } else if band == 5 {
        SAWTOOTH_BAND_5@
    } else if band == 6 {
        SAWTOOTH_BAND_6@
    } else if band == 7 {
        SAWTOOTH_BAND_7@
    } else if band == 8 {
        SAWTOOTH_BAND_8@
    } else {
        SAWTOOTH_BAND_9@
    }
}

/// Entry `index` of the band-limited sawtooth table of `band`.
pub fn sawtooth_sample(band: usize, index: usize) -> (r: i16)
    requires
        band < NUM_BANDS,
        index < TABLE_SIZE,
    ensures
        r == sawtooth_table(band as int)[index as int],
{
    match band {
        0 => SAWTOOTH_BAND_0[index],
        1 => SAWTOOTH_BAND_1[index],
        2 => SAWTOOTH_BAND_2[index],
        3 => SAWTOOTH_BAND_3[index],
        4 => SAWTOOTH_BAND_4[index],
        5 => SAWTOOTH_BAND_5[index],
        6 => SAWTOOTH_BAND_6[index],
        7 => SAWTOOTH_BAND_7[index],
        8 => SAWTOOTH_BAND_8[index],
        _ => SAWTOOTH_BAND_9[index],
    }
}

/// Band 0 of the band-limited triangle wave.
#[verifier::opaque]
pub const TRIANGLE_BAND_0: [i16; 1024] = [
    0, 128, 256, 384, 512, 640, 769, 897, 1025, 1153, 1281, 1409, 1537, 1665, 1793, 1921,
    2050, 2178, 2306, 2434, 2562, 2690, 2818, 2946, 3074, 3202, 3331, 3459, 3587, 3715, 3843, 3971,
    4099, 4227, 4355, 4483, 4612, 4740, 4868, 4996, 5124, 5252, 5380, 5508, 5636, 5764, 5892, 6021,
    6149, 6277, 6405, 6533, 6661, 6789, 6917, 7045, 7173, 7302, 7430, 7558, 7686, 7814, 7942, 8070,
    8198, 8326, 8454, 8583, 8711, 8839, 8967, 9095, 9223, 9351, 9479, 9607, 9735, 9864, 9992, 10120,
    10248, 10376, 10504, 10632, 10760, 10888, 11016, 11144, 11273, 11401, 11529, 11657, 11785, 11913, 12041, 12169,
    12297, 12425, 12554, 12682, 12810, 12938, 13066, 13194, 13322, 13450, 13578, 13706, 13835, 13963, 14091, 14219,
    14347, 14475, 14603, 14731, 14859, 14987, 15116, 15244, 15372, 15500, 15628, 15756, 15884, 16012, 16140, 16268,
    16396, 16525, 16653, 16781, 16909, 17037, 17165, 17293, 17421, 17549, 17677, 17806, 17934, 18062, 18190, 18318,
    18446, 18574, 18702, 18830, 18958, 19087, 19215, 19343, 19471, 19599, 19727, 19855, 19983, 20111, 20239, 20368,
    20496, 20624, 20752, 20880, 21008, 21136, 21264, 21392, 21520, 21648, 21777, 21905, 22033, 22161, 22289, 22417,
    22545, 22673, 22801, 22929, 23058, 23186, 23314, 23442, 23570, 23698, 23826, 23954, 24082, 24210, 24339, 24467,
    24595, 24723, 24851, 24979, 25107, 25235, 25363, 25491, 25619, 25748, 25876, 26004, 26132, 26260, 26388, 26516,
    26644, 26772, 26900, 27029, 27157, 27285, 27413, 27541, 27669, 27797, 27925, 28053, 28181, 28310, 28438, 28566,
    28694, 28822, 28950, 29078, 29206, 29334, 29462, 29591, 29719, 29847, 29975, 30103, 30231, 30359, 30487, 30615,
    30743, 30872, 31000, 31128, 31256, 31384, 31512, 31640, 31768, 31896, 32024, 32153, 32280, 32409, 32536, 32668,
    32767, 32668, 32536, 32409, 32280, 32153, 32024, 31896, 31768, 31640, 31512, 31384, 31256, 31128, 31000, 30872,
    30743, 30615, 30487, 30359, 30231, 30103, 29975, 29847, 29719, 29591, 29462, 29334, 29206, 29078, 28950, 28822,
    28694, 28566, 28438, 28310, 28181, 28053, 27925, 27797, 27669, 27541, 27413, 27285, 27157, 27029, 26900, 26772,
    26644, 26516, 26388, 26260, 26132, 26004, 25876, 25748, 25619, 25491, 25363, 25235, 25107, 24979, 24851, 24723,
    24595, 24467, 24339, 24210, 24082, 23954, 23826, 23698, 23570, 23442, 23314, 23186, 23058, 22929, 22801, 22673,
    22545, 22417, 22289, 22161, 22033, 21905, 21777, 21648, 21520, 21392, 21264, 21136, 21008, 20880, 20752, 20624,
    20496, 20368, 20239, 20111, 19983, 19855, 19727, 19599, 19471, 19343, 19215, 19087, 18958, 18830, 18702, 18574,
    18446, 18318, 18190, 18062, 17934, 17806, 17677, 17549, 17421, 17293, 17165, 17037, 16909, 16781, 16653, 16525,
    16396, 16268, 16140, 16012, 15884, 15756, 15628, 15500, 15372, 15244, 15116, 14987, 14859, 14731, 14603, 14475,
    14347, 14219, 14091, 13963, 13835, 13706, 13578, 13450, 13322, 13194, 13066, 12938, 12810, 12682, 12554, 12425,
    12297, 12169, 12041, 11913, 11785, 11657, 11529, 11401, 11273, 11144, 11016, 10888, 10760, 10632, 10504, 10376,
    10248, 10120, 9992, 9864, 9735, 9607, 9479, 9351, 9223, 9095, 8967, 8839, 8711, 8583, 8454, 8326,
    8198, 8070, 7942, 7814, 7686, 7558, 7430, 7302, 7173, 7045, 6917, 6789, 6661, 6533, 6405, 6277,
    6149, 6021, 5892, 5764, 5636, 5508, 5380, 5252, 5124, 4996, 4868, 4740, 4612, 4483, 4355, 4227,
    4099, 3971, 3843, 3715, 3587, 3459, 3331, 3202, 3074, 2946, 2818, 2690, 2562, 2434, 2306, 2178,
    2050, 1921, 1793, 1665, 1537, 1409, 1281, 1153, 1025, 897, 769, 640, 512, 384, 256, 128,
    0, -128, -256, -384, -512, -640, -769, -897, -1025, -1153, -1281, -1409, -1537, -1665, -1793, -1921,
    -2050, -2178, -2306, -2434, -2562, -2690, -2818, -2946, -3074, -3202, -3331, -3459, -3587, -3715, -3843, -3971,
    -4099, -4227, -4355, -4483, -4612, -4740, -4868, -4996, -5124, -5252, -5380, -5508, -5636, -5764, -5892, -6021,
    -6149, -6277, -6405, -6533, -6661, -6789, -6917, -7045, -7173, -7302, -7430, -7558, -7686, -7814, -7942, -8070,
    -8198, -8326, -8454, -8583, -8711, -8839, -8967, -9095, -9223, -9351, -9479, -9607, -9735, -9864, -9992, -10120,
    -10248, -10376, -10504, -10632, -10760, -10888, -11016, -11144, -11273, -11401, -11529, -11657, -11785, -11913, -12041, -12169,
    -12297, -12425, -12554, -12682, -12810, -12938, -13066, -13194, -13322, -13450, -13578, -13706, -13835, -13963, -14091, -14219,
    -14347, -14475, -14603, -14731, -14859, -14987, -15116, -15244, -15372, -15500, -15628, -15756, -15884, -16012, -16140, -16268,
    -16396, -16525, -16653, -16781, -16909, -17037, -17165, -17293, -17421, -17549, -17677, -17806, -17934, -18062, -18190, -18318,
    -18446, -18574, -18702, -18830, -18958, -19087, -19215, -19343, -19471, -19599, -19727, -19855, -19983, -20111, -20239, -20368,
    -20496, -20624, -20752, -20880, -21008, -21136, -21264, -21392, -21520, -21648, -21777, -21905, -22033, -22161, -22289, -22417,
    -22545, -22673, -22801, -22929, -23058, -23186, -23314, -23442, -23570, -23698, -23826, -23954, -24082, -24210, -24339, -24467,
    -24595, -24723, -24851, -24979, -25107, -25235, -25363, -25491, -25619, -25748, -25876, -26004, -26132, -26260, -26388, -26516,
    -26644, -26772, -26900, -27029, -27157, -27285, -27413, -27541, -27669, -27797, -27925, -28053, -28181, -28310, -28438, -28566,
    -28694, -28822, -28950, -29078, -29206, -29334, -29462, -29591, -29719, -29847, -29975, -30103, -30231, -30359, -30487, -30615,
    -30743, -30872, -31000, -31128, -31256, -31384, -31512, -31640, -31768, -31896, -32024, -32153, -32280, -32409, -32536, -32668,
    -32767, -32668, -32536, -32409, -32280, -32153, -32024, -31896, -31768, -31640, -31512, -31384, -31256, -31128, -31000, -30872,
    -30743, -30615, -30487, -30359, -30231, -30103, -29975, -29847, -29719, -29591, -29462, -29334, -29206, -29078, -28950, -28822,
    -28694, -28566, -28438, -28310, -28181, -28053, -27925, -27797, -27669, -27541, -27413, -27285, -27157, -27029, -26900, -26772,
    -26644, -26516, -26388, -26260, -26132, -26004, -25876, -25748, -25619, -25491, -25363, -25235, -25107, -24979, -24851, -24723,
    -24595, -24467, -24339, -24210, -24082, -23954, -23826, -23698, -23570, -23442, -23314, -23186, -23058, -22929, -22801, -22673,
    -22545, -22417, -22289, -22161, -22033, -21905, -21777, -21648, -21520, -21392, -21264, -21136, -21008, -20880, -20752, -20624,
    -20496, -20368, -20239, -20111, -19983, -19855, -19727, -19599, -19471, -19343, -19215, -19087, -18958, -18830, -18702, -18574,
    -18446, -18318, -18190, -18062, -17934, -17806, -17677, -17549, -17421, -17293, -17165, -17037, -16909, -16781, -16653, -16525,
    -16396, -16268, -16140, -16012, -15884, -15756, -15628, -15500, -15372, -15244, -15116, -14987, -14859, -14731, -14603, -14475,
    -14347, -14219, -14091, -13963, -13835, -13706, -13578, -13450, -13322, -13194, -13066, -12938, -12810, -12682, -12554, -12425,
    -12297, -12169, -12041, -11913, -11785, -11657, -11529, -11401, -11273, -11144, -11016, -10888, -10760, -10632, -10504, -10376,
    -10248, -10120, -9992, -9864, -9735, -9607, -9479, -9351, -9223, -9095, -8967, -8839, -8711, -8583, -8454, -8326,
    -8198, -8070, -7942, -7814, -7686, -7558, -7430, -7302, -7173, -7045, -6917, -6789, -6661, -6533, -6405, -6277,
    -6149, -6021, -5892, -5764, -5636, -5508, -5380, -5252, -5124, -4996, -4868, -4740, -4612, -4483, -4355, -4227,
    -4099, -3971, -3843, -3715, -3587, -3459, -3331, -3202, -3074, -2946, -2818, -2690, -2562, -2434, -2306, -2178,
    -2050, -1921, -1793, -1665, -1537, -1409, -1281, -1153, -1025, -897, -769, -640, -512, -384, -256, -128,
];

/// Band 1 of the band-limited triangle wave.
#[verifier::opaque]
pub const TRIANGLE_BAND_1: [i16; 1024] = [
    0, 128, 256, 385, 513, 641, 769, 898, 1026, 1154, 1282, 1410, 1538, 1666, 1795, 1923,
    2051, 2179, 2308, 2436, 2564, 2692, 2820, 2949, 3077, 3205, 3333, 3462, 3590, 3718, 3846, 3974,
    4102, 4230, 4359, 4487, 4615, 4743, 4872, 5000, 5128, 5256, 5384, 5513, 5641, 5769, 5897, 6026,
    6154, 6282, 6410, 6538, 6666, 6794, 6923, 7051, 7179, 7307, 7436, 7564, 7692, 7820, 7948, 8077,
    8205, 8333, 8461, 8590, 8718, 8846, 8974, 9102, 9230, 9358, 9487, 9615, 9743, 9871, 10000, 10128,
    10256, 10384, 10512, 10641, 10769, 10897, 11025, 11154, 11282, 11409, 11538, 11666, 11794, 11922, 12051, 12179,
    12307, 12435, 12564, 12692, 12820, 12948, 13076, 13205, 13333, 13461, 13589, 13718, 13845, 13973, 14102, 14230,
    14358, 14486, 14615, 14743, 14871, 14999, 15127, 15256, 15384, 15512, 15640, 15769, 15897, 16025, 16153, 16282,
    16409, 16537, 16666, 16794, 16922, 17050, 17179, 17307, 17435, 17563, 17691, 17820, 17948, 18076, 18204, 18333,
    18461, 18589, 18717, 18846, 18973, 19101, 19230, 19358, 19486, 19614, 19743, 19871, 19999, 20127, 20255, 20384,
    20512, 20640, 20768, 20897, 21025, 21152, 21281, 21410, 21537, 21665, 21794, 21922, 22050, 22178, 22307, 22435,
    22563, 22691, 22819, 22948, 23076, 23204, 23332, 23461, 23589, 23716, 23845, 23974, 24101, 24229, 24358, 24487,
    24614, 24742, 24871, 24999, 25127, 25255, 25383, 25512, 25640, 25767, 25896, 26025, 26153, 26280, 26409, 26538,
    26665, 26793, 26922, 27051, 27178, 27306, 27435, 27564, 27691, 27818, 27947, 28076, 28204, 28331, 28460, 28589,
    28717, 28844, 28973, 29102, 29229, 29356, 29486, 29615, 29742, 29869, 29999, 30128, 30255, 30381, 30512, 30642,
    30768, 30894, 31024, 31155, 31280, 31406, 31537, 31669, 31793, 31917, 32051, 32184, 32304, 32425, 32569, 32707,
    32767, 32707, 32569, 32425, 32304, 32184, 32051, 31917, 31793, 31669, 31537, 31406, 31280, 31155, 31024, 30894,
    30768, 30642, 30512, 30381, 30255, 30128, 29999, 29869, 29742, 29615, 29486, 29356, 29229, 29102, 28973, 28844,
    28717, 28589, 28460, 28331, 28204, 28076, 27947, 27818, 27691, 27564, 27435, 27306, 27178, 27051, 26922, 26793,
    26665, 26538, 26409, 26280, 26153, 26025, 25896, 25767, 25640, 25512, 25383, 25255, 25127, 24999, 24871, 24742,
    24614, 24487, 24358, 24229, 24101, 23974, 23845, 23716, 23589, 23461, 23332, 23204, 23076, 22948, 22819, 22691,
    22563, 22435, 22307, 22178, 22050, 21922, 21794, 21665, 21537, 21410, 21281, 21152, 21025, 20897, 20768, 20640,
    20512, 20384, 20255, 20127, 19999, 19871, 19743, 19614, 19486, 19358, 19230, 19101, 18973, 18846, 18717, 18589,
    18461, 18333, 18204, 18076, 17948, 17820, 17691, 17563, 17435, 17307, 17179, 17050, 16922, 16794, 16666, 16537,
    16409, 16282, 16153, 16025, 15897, 15769, 15640, 15512, 15384, 15256, 15127, 14999, 14871, 14743, 14615, 14486,
    14358, 14230, 14102, 13973, 13845, 13718, 13589, 13461, 13333, 13205, 13076, 12948, 12820, 12692, 12564, 12435,
    12307, 12179, 12051, 11922, 11794, 11666, 11538, 11409, 11282, 11154, 11025, 10897, 10769, 10641, 10512, 10384,
    10256, 10128, 10000, 9871, 9743, 9615, 9487, 9358, 9230, 9102, 8974, 8846, 8718, 8590, 8461, 8333,
    8205, 8077, 7948, 7820, 7692, 7564, 7436, 7307, 7179, 7051, 6923, 6794, 6666, 6538, 6410, 6282,
    6154, 6026, 5897, 5769, 5641, 5513, 5384, 5256, 5128, 5000, 4872, 4743, 4615, 4487, 4359, 4230,
    4102, 3974, 3846, 3718, 3590, 3462, 3333, 3205, 3077, 2949, 2820, 2692, 2564, 2436, 2308, 2179,
    2051, 1923, 1795, 1666, 1538, 1410, 1282, 1154, 1026, 898, 769, 641, 513, 385, 256, 128,
    0, -128, -256, -385, -513, -641, -769, -898, -1026, -1154, -1282, -1410, -1538, -1666, -1795, -1923,
    -2051, -2179, -2308, -2436, -2564, -2692, -2820, -2949, -3077, -3205, -3333, -3462, -3590, -3718, -3846, -3974,
    -4102, -4230, -4359, -4487, -4615, -4743, -4872, -5000, -5128, -5256, -5384, -5513, -5641, -5769, -5897, -6026,
    -6154, -6282, -6410, -6538, -6666, -6794, -6923, -7051, -7179, -7307, -7436, -7564, -7692, -7820, -7948, -8077,
    -8205, -8333, -8461, -8590, -8718, -8846, -8974, -9102, -9230, -9358, -9487, -9615, -9743, -9871, -10000, -10128,
    -10256, -10384, -10512, -10641, -10769, -10897, -11025, -11154, -11282, -11409, -11538, -11666, -11794, -11922, -12051, -12179,
    -12307, -12435, -12564, -12692, -12820, -12948, -13076, -13205, -13333, -13461, -13589, -13718, -13845, -13973, -14102, -14230,
    -14358, -14486, -14615, -14743, -14871, -14999, -15127, -15256, -15384, -15512, -15640, -15769, -15897, -16025, -16153, -16282,
    -16409, -16537, -16666, -16794, -16922, -17050, -17179, -17307, -17435, -17563, -17691, -17820, -17948, -18076, -18204, -18333,
    -18461, -18589, -18717, -18846, -18973, -19101, -19230, -19358, -19486, -19614, -19743, -19871, -19999, -20127, -20255, -20384,
    -20512, -20640, -20768, -20897, -21025, -21152, -21281, -21410, -21537, -21665, -21794, -21922, -22050, -22178, -22307, -22435,
    -22563, -22691, -22819, -22948, -23076, -23204, -23332, -23461, -23589, -23716, -23845, -23974, -24101, -24229, -24358, -24487,
    -24614, -24742, -24871, -24999, -25127, -25255, -25383, -25512, -25640, -25767, -25896, -26025, -26153, -26280, -26409, -26538,
    -26665, -26793, -26922, -27051, -27178, -27306, -27435, -27564, -27691, -27818, -27947, -28076, -28204, -28331, -28460, -28589,
    -28717, -28844, -28973, -29102, -29229, -29356, -29486, -29615, -29742, -29869, -29999, -30128, -30255, -30381, -30512, -30642,
    -30768, -30894, -31024, -31155, -31280, -31406, -31537, -31669, -31793, -31917, -32051, -32184, -32304, -32425, -32569, -32707,
    -32767, -32707, -32569, -32425, -32304, -32184, -32051, -31917, -31793, -31669, -31537, -31406, -31280, -31155, -31024, -30894,
    -30768, -30642, -30512, -30381, -30255, -30128, -29999, -29869, -29742, -29615, -29486, -29356, -29229, -29102, -28973, -28844,
    -28717, -28589, -28460, -28331, -28204, -28076, -27947, -27818, -27691, -27564, -27435, -27306, -27178, -27051, -26922, -26793,
    -26665, -26538, -26409, -26280, -26153, -26025, -25896, -25767, -25640, -25512, -25383, -25255, -25127, -24999, -24871, -24742,
    -24614, -24487, -24358, -24229, -24101, -23974, -23845, -23716, -23589, -23461, -23332, -23204, -23076, -22948, -22819, -22691,
    -22563, -22435, -22307, -22178, -22050, -21922, -21794, -21665, -21537, -21410, -21281, -21152, -21025, -20897, -20768, -20640,
    -20512, -20384, -20255, -20127, -19999, -19871, -19743, -19614, -19486, -19358, -19230, -19101, -18973, -18846, -18717, -18589,
    -18461, -18333, -18204, -18076, -17948, -17820, -17691, -17563, -17435, -17307, -17179, -17050, -16922, -16794, -16666, -16537,
    -16409, -16282, -16153, -16025, -15897, -15769, -15640, -15512, -15384, -15256, -15127, -14999, -14871, -14743, -14615, -14486,
    -14358, -14230, -14102, -13973, -13845, -13718, -13589, -13461, -13333, -13205, -13076, -12948, -12820, -12692, -12564, -12435,
    -12307, -12179, -12051, -11922, -11794, -11666, -11538, -11409, -11282, -11154, -11025, -10897, -10769, -10641, -10512, -10384,
    -10256, -10128, -10000, -9871, -9743, -9615, -9487, -9358, -9230, -9102, -8974, -8846, -8718, -8590, -8461, -8333,
    -8205, -8077, -7948, -7820, -7692, -7564, -7436, -7307, -7179, -7051, -6923, -6794, -6666, -6538, -6410, -6282,
    -6154, -6026, -5897, -5769, -5641, -5513, -5384, -5256, -5128, -5000, -4872, -4743, -4615, -4487, -4359, -4230,
    -4102, -3974, -3846, -3718, -3590, -3462, -3333, -3205, -3077, -2949, -2820, -2692, -2564, -2436, -2308, -2179,
    -2051, -1923, -1795, -1666, -1538, -1410, -1282, -1154, -1026, -898, -769, -641, -513, -385, -256, -128,
];

/// Band 2 of the band-limited triangle wave.
#[verifier::opaque]
pub const TRIANGLE_BAND_2: [i16; 1024] = [
    0, 128, 256, 385, 514, 643, 771, 899, 1027, 1155, 1283, 1412, 1541, 1670, 1798, 1927,
    2054, 2182, 2310, 2439, 2568, 2697, 2826, 2954, 3082, 3209, 3338, 3466, 3595, 3724, 3853, 3981,
    4109, 4237, 4365, 4494, 4622, 4751, 4880, 5008, 5136, 5264, 5392, 5521, 5650, 5779, 5907, 6036,
    6163, 6291, 6419, 6548, 6677, 6806, 6935, 7063, 7191, 7318, 7446, 7575, 7704, 7833, 7962, 8090,
    8218, 8346, 8474, 8602, 8731, 8860, 8989, 9117, 9245, 9373, 9501, 9630, 9759, 9888, 10016, 10144,
    10272, 10400, 10528, 10657, 10786, 10915, 11044, 11172, 11299, 11427, 11555, 11684, 11813, 11942, 12071, 12199,
    12327, 12454, 12582, 12711, 12840, 12969, 13098, 13226, 13354, 13482, 13610, 13738, 13867, 13997, 14125, 14253,
    14381, 14509, 14637, 14766, 14895, 15024, 15153, 15281, 15408, 15536, 15664, 15793, 15922, 16051, 16180, 16308,
    16436, 16563, 16691, 16820, 16949, 17078, 17207, 17335, 17463, 17590, 17718, 17847, 17976, 18106, 18234, 18362,
    18490, 18617, 18745, 18874, 19004, 19133, 19262, 19390, 19517, 19645, 19773, 19901, 20031, 20160, 20289, 20417,
    20544, 20672, 20800, 20929, 21058, 21188, 21316, 21444, 21572, 21699, 21827, 21956, 22085, 22215, 22344, 22472,
    22599, 22726, 22854, 22983, 23113, 23242, 23371, 23499, 23626, 23753, 23881, 24010, 24140, 24270, 24399, 24526,
    24653, 24780, 24908, 25037, 25167, 25297, 25426, 25554, 25680, 25807, 25935, 26064, 26194, 26324, 26454, 26581,
    26708, 26834, 26962, 27091, 27222, 27352, 27481, 27609, 27735, 27861, 27988, 28118, 28249, 28380, 28509, 28636,
    28762, 28887, 29015, 29144, 29276, 29408, 29538, 29664, 29789, 29913, 30040, 30171, 30304, 30437, 30567, 30693,
    30815, 30938, 31064, 31196, 31332, 31468, 31599, 31722, 31840, 31957, 32082, 32221, 32370, 32518, 32647, 32735,
    32767, 32735, 32647, 32518, 32370, 32221, 32082, 31957, 31840, 31722, 31599, 31468, 31332, 31196, 31064, 30938,
    30815, 30693, 30567, 30437, 30304, 30171, 30040, 29913, 29789, 29664, 29538, 29408, 29276, 29144, 29015, 28887,
    28762, 28636, 28509, 28380, 28249, 28118, 27988, 27861, 27735, 27609, 27481, 27352, 27222, 27091, 26962, 26834,
    26708, 26581, 26454, 26324, 26194, 26064, 25935, 25807, 25680, 25554, 25426, 25297, 25167, 25037, 24908, 24780,
    24653, 24526, 24399, 24270, 24140, 24010, 23881, 23753, 23626, 23499, 23371, 23242, 23113, 22983, 22854, 22726,
    22599, 22472, 22344, 22215, 22085, 21956, 21827, 21699, 21572, 21444, 21316, 21188, 21058, 20929, 20800, 20672,
    20544, 20417, 20289, 20160, 20031, 19901, 19773, 19645, 19517, 19390, 19262, 19133, 19004, 18874, 18745, 18617,
    18490, 18362, 18234, 18106, 17976, 17847, 17718, 17590, 17463, 17335, 17207, 17078, 16949, 16820, 16691, 16563,
    16436, 16308, 16180, 16051, 15922, 15793, 15664, 15536, 15408, 15281, 15153, 15024, 14895, 14766, 14637, 14509,
    14381, 14253, 14125, 13997, 13867, 13738, 13610, 13482, 13354, 13226, 13098, 12969, 12840, 12711, 12582, 12454,
    12327, 12199, 12071, 11942, 11813, 11684, 11555, 11427, 11299, 11172, 11044, 10915, 10786, 10657, 10528, 10400,
    10272, 10144, 10016, 9888, 9759, 9630, 9501, 9373, 9245, 9117, 8989, 8860, 8731, 8602, 8474, 8346,
    8218, 8090, 7962, 7833, 7704, 7575, 7446, 7318, 7191, 7063, 6935, 6806, 6677, 6548, 6419, 6291,
    6163, 6036, 5907, 5779, 5650, 5521, 5392, 5264, 5136, 5008, 4880, 4751, 4622, 4494, 4365, 4237,
    4109, 3981, 3853, 3724, 3595, 3466, 3338, 3209, 3082, 2954, 2826, 2697, 2568, 2439, 2310, 2182,
    2054, 1927, 1798, 1670, 1541, 1412, 1283, 1155, 1027, 899, 771, 643, 514, 385, 256, 128,
    0, -128, -256, -385, -514, -643, -771, -899, -1027, -1155, -1283, -1412, -1541, -1670, -1798, -1927,
    -2054, -2182, -2310, -2439, -2568, -2697, -2826, -2954, -3082, -3209, -3338, -3466, -3595, -3724, -3853, -3981,
    -4109, -4237, -4365, -4494, -4622, -4751, -4880, -5008, -5136, -5264, -5392, -5521, -5650, -5779, -5907, -6036,
    -6163, -6291, -6419, -6548, -6677, -6806, -6935, -7063, -7191, -7318, -7446, -7575, -7704, -7833, -7962, -8090,
    -8218, -8346, -8474, -8602, -8731, -8860, -8989, -9117, -9245, -9373, -9501, -9630, -9759, -9888, -10016, -10144,
    -10272, -10400, -10528, -10657, -10786, -10915, -11044, -11172, -11299, -11427, -11555, -11684, -11813, -11942, -12071, -12199,
    -12327, -12454, -12582, -12711, -12840, -12969, -13098, -13226, -13354, -13482, -13610, -13738, -13867, -13997, -14125, -14253,
    -14381, -14509, -14637, -14766, -14895, -15024, -15153, -15281, -15408, -15536, -15664, -15793, -15922, -16051, -16180, -16308,
    -16436, -16563, -16691, -16820, -16949, -17078, -17207, -17335, -17463, -17590, -17718, -17847, -17976, -18106, -18234, -18362,
    -18490, -18617, -18745, -18874, -19004, -19133, -19262, -19390, -19517, -19645, -19773, -19901, -20031, -20160, -20289, -20417,
    -20544, -20672, -20800, -20929, -21058, -21188, -21316, -21444, -21572, -21699, -21827, -21956, -22085, -22215, -22344, -22472,
    -22599, -22726, -22854, -22983, -23113, -23242, -23371, -23499, -23626, -23753, -23881, -24010, -24140, -24270, -24399, -24526,
    -24653, -24780, -24908, -25037, -25167, -25297, -25426, -25554, -25680, -25807, -25935, -26064, -26194, -26324, -26454, -26581,
    -26708, -26834, -26962, -27091, -27222, -27352, -27481, -27609, -27735, -27861, -27988, -28118, -28249, -28380, -28509, -28636,
    -28762, -28887, -29015, -29144, -29276, -29408, -29538, -29664, -29789, -29913, -30040, -30171, -30304, -30437, -30567, -30693,
    -30815, -30938, -31064, -31196, -31332, -31468, -31599, -31722, -31840, -31957, -32082, -32221, -32370, -32518, -32647, -32735,
    -32767, -32735, -32647, -32518, -32370, -32221, -32082, -31957, -31840, -31722, -31599, -31468, -31332, -31196, -31064, -30938,
    -30815, -30693, -30567, -30437, -30304, -30171, -30040, -29913, -29789, -29664, -29538, -29408, -29276, -29144, -29015, -28887,
    -28762, -28636, -28509, -28380, -28249, -28118, -27988, -27861, -27735, -27609, -27481, -27352, -27222, -27091, -26962, -26834,
    -26708, -26581, -26454, -26324, -26194, -26064, -25935, -25807, -25680, -25554, -25426, -25297, -25167, -25037, -24908, -24780,
    -24653, -24526, -24399, -24270, -24140, -24010, -23881, -23753, -23626, -23499, -23371, -23242, -23113, -22983, -22854, -22726,
    -22599, -22472, -22344, -22215, -22085, -21956, -21827, -21699, -21572, -21444, -21316, -21188, -21058, -20929, -20800, -20672,
    -20544, -20417, -20289, -20160, -20031, -19901, -19773, -19645, -19517, -19390, -19262, -19133, -19004, -18874, -18745, -18617,
    -18490, -18362, -18234, -18106, -17976, -17847, -17718, -17590, -17463, -17335, -17207, -17078, -16949, -16820, -16691, -16563,
    -16436, -16308, -16180, -16051, -15922, -15793, -15664, -15536, -15408, -15281, -15153, -15024, -14895, -14766, -14637, -14509,
    -14381, -14253, -14125, -13997, -13867, -13738, -13610, -13482, -13354, -13226, -13098, -12969, -12840, -12711, -12582, -12454,
    -12327, -12199, -12071, -11942, -11813, -11684, -11555, -11427, -11299, -11172, -11044, -10915, -10786, -10657, -10528, -10400,
    -10272, -10144, -10016, -9888, -9759, -9630, -9501, -9373, -9245, -9117, -8989, -8860, -8731, -8602, -8474, -8346,
    -8218, -8090, -7962, -7833, -7704, -7575, -7446, -7318, -7191, -7063, -6935, -6806, -6677, -6548, -6419, -6291,
    -6163, -6036, -5907, -5779, -5650, -5521, -5392, -5264, -5136, -5008, -4880, -4751, -4622, -4494, -4365, -4237,
    -4109, -3981, -3853, -3724, -3595, -3466, -3338, -3209, -3082, -2954, -2826, -2697, -2568, -2439, -2310, -2182,
    -2054, -1927, -1798, -1670, -1541, -1412, -1283, -1155, -1027, -899, -771, -643, -514, -385, -256, -128,
];

/// Band 3 of the band-limited triangle wave.
#[verifier::opaque]
pub const TRIANGLE_BAND_3: [i16; 1024] = [
    0, 128, 255, 383, 512, 641, 771, 900, 1030, 1161, 1290, 1420, 1549, 1678, 1806, 1933,
    2061, 2189, 2316, 2444, 2573, 2702, 2832, 2961, 3091, 3222, 3351, 3481, 3610, 3739, 3867, 3994,
    4122, 4249, 4377, 4505, 4634, 4763, 4892, 5022, 5152, 5283, 5412, 5542, 5671, 5800, 5928, 6055,
    6183, 6310, 6438, 6566, 6695, 6824, 6953, 7083, 7213, 7344, 7474, 7603, 7732, 7861, 7989, 8116,
    8244, 8371, 8499, 8627, 8756, 8885, 9014, 9144, 9274, 9405, 9535, 9664, 9793, 9922, 10050, 10177,
    10305, 10432, 10560, 10688, 10816, 10946, 11075, 11205, 11336, 11466, 11596, 11725, 11855, 11983, 12111, 12239,
    12366, 12493, 12621, 12749, 12877, 13006, 13136, 13266, 13397, 13527, 13657, 13787, 13916, 14044, 14172, 14300,
    14427, 14554, 14681, 14809, 14938, 15067, 15197, 15327, 15458, 15588, 15718, 15848, 15977, 16106, 16233, 16361,
    16488, 16615, 16742, 16870, 16998, 17128, 17258, 17388, 17519, 17649, 17780, 17909, 18039, 18167, 18295, 18422,
    18549, 18676, 18803, 18930, 19059, 19188, 19318, 19449, 19580, 19711, 19841, 19971, 20100, 20229, 20356, 20483,
    20610, 20736, 20863, 20991, 21119, 21248, 21379, 21509, 21641, 21772, 21903, 22033, 22162, 22290, 22418, 22544,
    22670, 22797, 22923, 23051, 23179, 23308, 23439, 23570, 23702, 23834, 23965, 24095, 24225, 24353, 24480, 24606,
    24731, 24857, 24983, 25110, 25238, 25368, 25499, 25631, 25763, 25896, 26028, 26158, 26288, 26416, 26542, 26667,
    26792, 26916, 27041, 27168, 27296, 27426, 27558, 27691, 27825, 27959, 28092, 28224, 28353, 28480, 28605, 28729,
    28851, 28974, 29097, 29223, 29351, 29482, 29615, 29751, 29889, 30026, 30161, 30295, 30424, 30550, 30671, 30790,
    30906, 31023, 31142, 31264, 31393, 31528, 31671, 31818, 31970, 32121, 32267, 32404, 32526, 32628, 32704, 32751,
    32767, 32751, 32704, 32628, 32526, 32404, 32267, 32121, 31970, 31818, 31671, 31528, 31393, 31264, 31142, 31023,
    30906, 30790, 30671, 30550, 30424, 30295, 30161, 30026, 29889, 29751, 29615, 29482, 29351, 29223, 29097, 28974,
    28851, 28729, 28605, 28480, 28353, 28224, 28092, 27959, 27825, 27691, 27558, 27426, 27296, 27168, 27041, 26916,
    26792, 26667, 26542, 26416, 26288, 26158, 26028, 25896, 25763, 25631, 25499, 25368, 25238, 25110, 24983, 24857,
    24731, 24606, 24480, 24353, 24225, 24095, 23965, 23834, 23702, 23570, 23439, 23308, 23179, 23051, 22923, 22797,
    22670, 22544, 22418, 22290, 22162, 22033, 21903, 21772, 21641, 21509, 21379, 21248, 21119, 20991, 20863, 20736,
    20610, 20483, 20356, 20229, 20100, 19971, 19841, 19711, 19580, 19449, 19318, 19188, 19059, 18930, 18803, 18676,
    18549, 18422, 18295, 18167, 18039, 17909, 17780, 17649, 17519, 17388, 17258, 17128, 16998, 16870, 16742, 16615,
    16488, 16361, 16233, 16106, 15977, 15848, 15718, 15588, 15458, 15327, 15197, 15067, 14938, 14809, 14681, 14554,
    14427, 14300, 14172, 14044, 13916, 13787, 13657, 13527, 13397, 13266, 13136, 13006, 12877, 12749, 12621, 12493,
    12366, 12239, 12111, 11983, 11855, 11725, 11596, 11466, 11336, 11205, 11075, 10946, 10816, 10688, 10560, 10432,
    10305, 10177, 10050, 9922, 9793, 9664, 9535, 9405, 9274, 9144, 9014, 8885, 8756, 8627, 8499, 8371,
    8244, 8116, 7989, 7861, 7732, 7603, 7474, 7344, 7213, 7083, 6953, 6824, 6695, 6566, 6438, 6310,
    6183, 6055, 5928, 5800, 5671, 5542, 5412, 5283, 5152, 5022, 4892, 4763, 4634, 4505, 4377, 4249,
    4122, 3994, 3867, 3739, 3610, 3481, 3351, 3222, 3091, 2961, 2832, 2702, 2573, 2444, 2316, 2189,
    2061, 1933, 1806, 1678, 1549, 1420, 1290, 1161, 1030, 900, 771, 641, 512, 383, 255, 128,
    0, -128, -255, -383, -512, -641, -771, -900, -1030, -1161, -1290, -1420, -1549, -1678, -1806, -1933,
    -2061, -2189, -2316, -2444, -2573, -2702, -2832, -2961, -3091, -3222, -3351, -3481, -3610, -3739, -3867, -3994,
    -4122, -4249, -4377, -4505, -4634, -4763, -4892, -5022, -5152, -5283, -5412, -5542, -5671, -5800, -5928, -6055,
    -6183, -6310, -6438, -6566, -6695, -6824, -6953, -7083, -7213, -7344, -7474, -7603, -7732, -7861, -7989, -8116,
    -8244, -8371, -8499, -8627, -8756, -8885, -9014, -9144, -9274, -9405, -9535, -9664, -9793, -9922, -10050, -10177,
    -10305, -10432, -10560, -10688, -10816, -10946, -11075, -11205, -11336, -11466, -11596, -11725, -11855, -11983, -12111, -12239,
    -12366, -12493, -12621, -12749, -12877, -13006, -13136, -13266, -13397, -13527, -13657, -13787, -13916, -14044, -14172, -14300,
    -14427, -14554, -14681, -14809, -14938, -15067, -15197, -15327, -15458, -15588, -15718, -15848, -15977, -16106, -16233, -16361,
    -16488, -16615, -16742, -16870, -16998, -17128, -17258, -17388, -17519, -17649, -17780, -17909, -18039, -18167, -18295, -18422,
    -18549, -18676, -18803, -18930, -19059, -19188, -19318, -19449, -19580, -19711, -19841, -19971, -20100, -20229, -20356, -20483,
    -20610, -20736, -20863, -20991, -21119, -21248, -21379, -21509, -21641, -21772, -21903, -22033, -22162, -22290, -22418, -22544,
    -22670, -22797, -22923, -23051, -23179, -23308, -23439, -23570, -23702, -23834, -23965, -24095, -24225, -24353, -24480, -24606,
    -24731, -24857, -24983, -25110, -25238, -25368, -25499, -25631, -25763, -25896, -26028, -26158, -26288, -26416, -26542, -26667,
    -26792, -26916, -27041, -27168, -27296, -27426, -27558, -27691, -27825, -27959, -28092, -28224, -28353, -28480, -28605, -28729,
    -28851, -28974, -29097, -29223, -29351, -29482, -29615, -29751, -29889, -30026, -30161, -30295, -30424, -30550, -30671, -30790,
    -30906, -31023, -31142, -31264, -31393, -31528, -31671, -31818, -31970, -32121, -32267, -32404, -32526, -32628, -32704, -32751,
    -32767, -32751, -32704, -32628, -32526, -32404, -32267, -32121, -31970, -31818, -31671, -31528, -31393, -31264, -31142, -31023,
    -30906, -30790, -30671, -30550, -30424, -30295, -30161, -30026, -29889, -29751, -29615, -29482, -29351, -29223, -29097, -28974,
    -28851, -28729, -28605, -28480, -28353, -28224, -28092, -27959, -27825, -27691, -27558, -27426, -27296, -27168, -27041, -26916,
    -26792, -26667, -26542, -26416, -26288, -26158, -26028, -25896, -25763, -25631, -25499, -25368, -25238, -25110, -24983, -24857,
    -24731, -24606, -24480, -24353, -24225, -24095, -23965, -23834, -23702, -23570, -23439, -23308, -23179, -23051, -22923, -22797,
    -22670, -22544, -22418, -22290, -22162, -22033, -21903, -21772, -21641, -21509, -21379, -21248, -21119, -20991, -20863, -20736,
    -20610, -20483, -20356, -20229, -20100, -19971, -19841, -19711, -19580, -19449, -19318, -19188, -19059, -18930, -18803, -18676,
    -18549, -18422, -18295, -18167, -18039, -17909, -17780, -17649, -17519, -17388, -17258, -17128, -16998, -16870, -16742, -16615,
    -16488, -16361, -16233, -16106, -15977, -15848, -15718, -15588, -15458, -15327, -15197, -15067, -14938, -14809, -14681, -14554,
    -14427, -14300, -14172, -14044, -13916, -13787, -13657, -13527, -13397, -13266, -13136, -13006, -12877, -12749, -12621, -12493,
    -12366, -12239, -12111, -11983, -11855, -11725, -11596, -11466, -11336, -11205, -11075, -10946, -10816, -10688, -10560, -10432,
    -10305, -10177, -10050, -9922, -9793, -9664, -9535, -9405, -9274, -9144, -9014, -8885, -8756, -8627, -8499, -8371,
    -8244, -8116, -7989, -7861, -7732, -7603, -7474, -7344, -7213, -7083, -6953, -6824, -6695, -6566, -6438, -6310,
    -6183, -6055, -5928, -5800, -5671, -5542, -5412, -5283, -5152, -5022, -4892, -4763, -4634, -4505, -4377, -4249,
    -4122, -3994, -3867, -3739, -3610, -3481, -3351, -3222, -3091, -2961, -2832, -2702, -2573, -2444, -2316, -2189,
    -2061, -1933, -1806, -1678, -1549, -1420, -1290, -1161, -1030, -900, -771, -641, -512, -383, -255, -128,
];

/// Band 4 of the band-limited triangle wave.
#[verifier::opaque]
pub const TRIANGLE_BAND_4: [i16; 1024] = [
    0, 127, 254, 382, 509, 637, 766, 895, 1024, 1154, 1284, 1415, 1546, 1678, 1810, 1942,
    2074, 2206, 2339, 2471, 2602, 2733, 2864, 2995, 3125, 3254, 3383, 3511, 3639, 3767, 3894, 4021,
    4148, 4275, 4402, 4530, 4657, 4785, 4914, 5043, 5172, 5302, 5432, 5563, 5695, 5826, 5958, 6091,
    6223, 6355, 6487, 6619, 6751, 6882, 7013, 7144, 7274, 7403, 7532, 7660, 7788, 7915, 8043, 8170,
    8296, 8423, 8550, 8677, 8805, 8933, 9061, 9190, 9319, 9449, 9580, 9711, 9842, 9974, 10107, 10239,
    10371, 10504, 10636, 10769, 10901, 11032, 11163, 11293, 11423, 11553, 11681, 11809, 11937, 12064, 12191, 12318,
    12445, 12571, 12698, 12825, 12952, 13080, 13208, 13337, 13466, 13596, 13727, 13858, 13990, 14122, 14254, 14387,
    14520, 14653, 14786, 14919, 15051, 15182, 15314, 15444, 15574, 15703, 15832, 15960, 16087, 16214, 16340, 16466,
    16592, 16718, 16845, 16971, 17098, 17225, 17353, 17482, 17611, 17741, 17872, 18004, 18136, 18269, 18402, 18536,
    18669, 18803, 18936, 19070, 19202, 19335, 19466, 19597, 19727, 19856, 19984, 20111, 20238, 20364, 20490, 20615,
    20740, 20865, 20990, 21116, 21242, 21369, 21496, 21625, 21754, 21884, 22016, 22148, 22281, 22415, 22549, 22684,
    22819, 22954, 23089, 23224, 23357, 23490, 23622, 23753, 23883, 24012, 24139, 24266, 24391, 24516, 24639, 24763,
    24886, 25009, 25132, 25256, 25380, 25506, 25633, 25761, 25890, 26021, 26154, 26288, 26423, 26559, 26697, 26835,
    26973, 27111, 27249, 27386, 27523, 27657, 27791, 27922, 28052, 28179, 28304, 28428, 28549, 28669, 28787, 28905,
    29022, 29139, 29256, 29375, 29495, 29617, 29742, 29870, 30001, 30136, 30274, 30415, 30560, 30707, 30857, 31009,
    31162, 31315, 31466, 31616, 31761, 31902, 32037, 32164, 32282, 32390, 32486, 32570, 32640, 32695, 32735, 32759,
    32767, 32759, 32735, 32695, 32640, 32570, 32486, 32390, 32282, 32164, 32037, 31902, 31761, 31616, 31466, 31315,
    31162, 31009, 30857, 30707, 30560, 30415, 30274, 30136, 30001, 29870, 29742, 29617, 29495, 29375, 29256, 29139,
    29022, 28905, 28787, 28669, 28549, 28428, 28304, 28179, 28052, 27922, 27791, 27657, 27523, 27386, 27249, 27111,
    26973, 26835, 26697, 26559, 26423, 26288, 26154, 26021, 25890, 25761, 25633, 25506, 25380, 25256, 25132, 25009,
    24886, 24763, 24639, 24516, 24391, 24266, 24139, 24012, 23883, 23753, 23622, 23490, 23357, 23224, 23089, 22954,
    22819, 22684, 22549, 22415, 22281, 22148, 22016, 21884, 21754, 21625, 21496, 21369, 21242, 21116, 20990, 20865,
    20740, 20615, 20490, 20364, 20238, 20111, 19984, 19856, 19727, 19597, 19466, 19335, 19202, 19070, 18936, 18803,
    18669, 18536, 18402, 18269, 18136, 18004, 17872, 17741, 17611, 17482, 17353, 17225, 17098, 16971, 16845, 16718,
    16592, 16466, 16340, 16214, 16087, 15960, 15832, 15703, 15574, 15444, 15314, 15182, 15051, 14919, 14786, 14653,
    14520, 14387, 14254, 14122, 13990, 13858, 13727, 13596, 13466, 13337, 13208, 13080, 12952, 12825, 12698, 12571,
    12445, 12318, 12191, 12064, 11937, 11809, 11681, 11553, 11423, 11293, 11163, 11032, 10901, 10769, 10636, 10504,
    10371, 10239, 10107, 9974, 9842, 9711, 9580, 9449, 9319, 9190, 9061, 8933, 8805, 8677, 8550, 8423,
    8296, 8170, 8043, 7915, 7788, 7660, 7532, 7403, 7274, 7144, 7013, 6882, 6751, 6619, 6487, 6355,
    6223, 6091, 5958, 5826, 5695, 5563, 5432, 5302, 5172, 5043, 4914, 4785, 4657, 4530, 4402, 4275,
    4148, 4021, 3894, 3767, 3639, 3511, 3383, 3254, 3125, 2995, 2864, 2733, 2602, 2471, 2339, 2206,
    2074, 1942, 1810, 1678, 1546, 1415, 1284, 1154, 1024, 895, 766, 637, 509, 382, 254, 127,
    0, -127, -254, -382, -509, -637, -766, -895, -1024, -1154, -1284, -1415, -1546, -1678, -1810, -1942,
    -2074, -2206, -2339, -2471, -2602, -2733, -2864, -2995, -3125, -3254, -3383, -3511, -3639, -3767, -3894, -4021,
    -4148, -4275, -4402, -4530, -4657, -4785, -4914, -5043, -5172, -5302, -5432, -5563, -5695, -5826, -5958, -6091,
    -6223, -6355, -6487, -6619, -6751, -6882, -7013, -7144, -7274, -7403, -7532, -7660, -7788, -7915, -8043, -8170,
    -8296, -8423, -8550, -8677, -8805, -8933, -9061, -9190, -9319, -9449, -9580, -9711, -9842, -9974, -10107, -10239,
    -10371, -10504, -10636, -10769, -10901, -11032, -11163, -11293, -11423, -11553, -11681, -11809, -11937, -12064, -12191, -12318,
    -12445, -12571, -12698, -12825, -12952, -13080, -13208, -13337, -13466, -13596, -13727, -13858, -13990, -14122, -14254, -14387,
    -14520, -14653, -14786, -14919, -15051, -15182, -15314, -15444, -15574, -15703, -15832, -15960, -16087, -16214, -16340, -16466,
    -16592, -16718, -16845, -16971, -17098, -17225, -17353, -17482, -17611, -17741, -17872, -18004, -18136, -18269, -18402, -18536,
    -18669, -18803, -18936, -19070, -19202, -19335, -19466, -19597, -19727, -19856, -19984, -20111, -20238, -20364, -20490, -20615,
    -20740, -20865, -20990, -21116, -21242, -21369, -21496, -21625, -21754, -21884, -22016, -22148, -22281, -22415, -22549, -22684,
    -22819, -22954, -23089, -23224, -23357, -23490, -23622, -23753, -23883, -24012, -24139, -24266, -24391, -24516, -24639, -24763,
    -24886, -25009, -25132, -25256, -25380, -25506, -25633, -25761, -25890, -26021, -26154, -26288, -26423, -26559, -26697, -26835,
    -26973, -27111, -27249, -27386, -27523, -27657, -27791, -27922, -28052, -28179, -28304, -28428, -28549, -28669, -28787, -28905,
    -29022, -29139, -29256, -29375, -29495, -29617, -29742, -29870, -30001, -30136, -30274, -30415, -30560, -30707, -30857, -31009,
    -31162, -31315, -31466, -31616, -31761, -31902, -32037, -32164, -32282, -32390, -32486, -32570, -32640, -32695, -32735, -32759,
    -32767, -32759, -32735, -32695, -32640, -32570, -32486, -32390, -32282, -32164, -32037, -31902, -31761, -31616, -31466, -31315,
    -31162, -31009, -30857, -30707, -30560, -30415, -30274, -30136, -30001, -29870, -29742, -29617, -29495, -29375, -29256, -29139,
    -29022, -28905, -28787, -28669, -28549, -28428, -28304, -28179, -28052, -27922, -27791, -27657, -27523, -27386, -27249, -27111,
    -26973, -26835, -26697, -26559, -26423, -26288, -26154, -26021, -25890, -25761, -25633, -25506, -25380, -25256, -25132, -25009,
    -24886, -24763, -24639, -24516, -24391, -24266, -24139, -24012, -23883, -23753, -23622, -23490, -23357, -23224, -23089, -22954,
    -22819, -22684, -22549, -22415, -22281, -22148, -22016, -21884, -21754, -21625, -21496, -21369, -21242, -21116, -20990, -20865,
    -20740, -20615, -20490, -20364, -20238, -20111, -19984, -19856, -19727, -19597, -19466, -19335, -19202, -19070, -18936, -18803,
    -18669, -18536, -18402, -18269, -18136, -18004, -17872, -17741, -17611, -17482, -17353, -17225, -17098, -16971, -16845, -16718,
    -16592, -16466, -16340, -16214, -16087, -15960, -15832, -15703, -15574, -15444, -15314, -15182, -15051, -14919, -14786, -14653,
    -14520, -14387, -14254, -14122, -13990, -13858, -13727, -13596, -13466, -13337, -13208, -13080, -12952, -12825, -12698, -12571,
    -12445, -12318, -12191, -12064, -11937, -11809, -11681, -11553, -11423, -11293, -11163, -11032, -10901, -10769, -10636, -10504,
    -10371, -10239, -10107, -9974, -9842, -9711, -9580, -9449, -9319, -9190, -9061, -8933, -8805, -8677, -8550, -8423,
    -8296, -8170, -8043, -7915, -7788, -7660, -7532, -7403, -7274, -7144, -7013, -6882, -6751, -6619, -6487, -6355,
    -6223, -6091, -5958, -5826, -5695, -5563, -5432, -5302, -5172, -5043, -4914, -4785, -4657, -4530, -4402, -4275,
    -4148, -4021, -3894, -3767, -3639, -3511, -3383, -3254, -3125, -2995, -2864, -2733, -2602, -2471, -2339, -2206,
    -2074, -1942, -1810, -1678, -1546, -1415, -1284, -1154, -1024, -895, -766, -637, -509, -382, -254, -127,
];

/// Band 5 of the band-limited triangle wave.
#[verifier::opaque]
pub const TRIANGLE_BAND_5: [i16; 1024] = [
    0, 126, 252, 379, 505, 632, 758, 886, 1013, 1141, 1269, 1398, 1527, 1656, 1787, 1917,
    2048, 2180, 2312, 2445, 2578, 2711, 2845, 2980, 3115, 3250, 3386, 3521, 3658, 3794, 3930, 4067,
    4203, 4340, 4477, 4613, 4749, 4886, 5021, 5157, 5292, 5427, 5562, 5696, 5829, 5962, 6095, 6227,
    6358, 6489, 6620, 6749, 6879, 7008, 7136, 7264, 7392, 7519, 7645, 7772, 7898, 8024, 8150, 8276,
    8402, 8527, 8653, 8779, 8905, 9031, 9158, 9284, 9412, 9539, 9667, 9796, 9925, 10054, 10184, 10315,
    10446, 10578, 10710, 10843, 10977, 11111, 11245, 11381, 11516, 11652, 11788, 11925, 12062, 12199, 12337, 12474,
    12612, 12749, 12887, 13024, 13161, 13298, 13435, 13571, 13707, 13842, 13977, 14112, 14246, 14379, 14511, 14643,
    14775, 14905, 15035, 15165, 15293, 15421, 15549, 15676, 15802, 15928, 16053, 16179, 16303, 16428, 16552, 16676,
    16800, 16924, 17048, 17172, 17297, 17422, 17547, 17672, 17798, 17925, 18052, 18180, 18308, 18437, 18567, 18698,
    18829, 18962, 19095, 19229, 19363, 19499, 19635, 19772, 19910, 20048, 20187, 20326, 20466, 20606, 20746, 20886,
    21027, 21167, 21308, 21448, 21588, 21728, 21867, 22005, 22143, 22281, 22417, 22553, 22688, 22821, 22954, 23086,
    23217, 23346, 23475, 23602, 23728, 23854, 23978, 24101, 24223, 24345, 24466, 24586, 24705, 24824, 24943, 25061,
    25179, 25298, 25416, 25535, 25654, 25773, 25894, 26015, 26137, 26260, 26384, 26510, 26637, 26765, 26895, 27027,
    27161, 27296, 27433, 27572, 27713, 27855, 27999, 28145, 28293, 28442, 28592, 28744, 28896, 29050, 29204, 29359,
    29514, 29669, 29823, 29977, 30131, 30283, 30433, 30582, 30729, 30873, 31015, 31153, 31288, 31419, 31545, 31668,
    31785, 31897, 32003, 32104, 32198, 32286, 32367, 32442, 32509, 32569, 32621, 32665, 32702, 32730, 32751, 32763,
    32767, 32763, 32751, 32730, 32702, 32665, 32621, 32569, 32509, 32442, 32367, 32286, 32198, 32104, 32003, 31897,
    31785, 31668, 31545, 31419, 31288, 31153, 31015, 30873, 30729, 30582, 30433, 30283, 30131, 29977, 29823, 29669,
    29514, 29359, 29204, 29050, 28896, 28744, 28592, 28442, 28293, 28145, 27999, 27855, 27713, 27572, 27433, 27296,
    27161, 27027, 26895, 26765, 26637, 26510, 26384, 26260, 26137, 26015, 25894, 25773, 25654, 25535, 25416, 25298,
    25179, 25061, 24943, 24824, 24705, 24586, 24466, 24345, 24223, 24101, 23978, 23854, 23728, 23602, 23475, 23346,
    23217, 23086, 22954, 22821, 22688, 22553, 22417, 22281, 22143, 22005, 21867, 21728, 21588, 21448, 21308, 21167,
    21027, 20886, 20746, 20606, 20466, 20326, 20187, 20048, 19910, 19772, 19635, 19499, 19363, 19229, 19095, 18962,
    18829, 18698, 18567, 18437, 18308, 18180, 18052, 17925, 17798, 17672, 17547, 17422, 17297, 17172, 17048, 16924,
    16800, 16676, 16552, 16428, 16303, 16179, 16053, 15928, 15802, 15676, 15549, 15421, 15293, 15165, 15035, 14905,
    14775, 14643, 14511, 14379, 14246, 14112, 13977, 13842, 13707, 13571, 13435, 13298, 13161, 13024, 12887, 12749,
    12612, 12474, 12337, 12199, 12062, 11925, 11788, 11652, 11516, 11381, 11245, 11111, 10977, 10843, 10710, 10578,
    10446, 10315, 10184, 10054, 9925, 9796, 9667, 9539, 9412, 9284, 9158, 9031, 8905, 8779, 8653, 8527,
    8402, 8276, 8150, 8024, 7898, 7772, 7645, 7519, 7392, 7264, 7136, 7008, 6879, 6749, 6620, 6489,
    6358, 6227, 6095, 5962, 5829, 5696, 5562, 5427, 5292, 5157, 5021, 4886, 4749, 4613, 4477, 4340,
    4203, 4067, 3930, 3794, 3658, 3521, 3386, 3250, 3115, 2980, 2845, 2711, 2578, 2445, 2312, 2180,
    2048, 1917, 1787, 1656, 1527, 1398, 1269, 1141, 1013, 886, 758, 632, 505, 379, 252, 126,
    0, -126, -252, -379, -505, -632, -758, -886, -1013, -1141, -1269, -1398, -1527, -1656, -1787, -1917,
    -2048, -2180, -2312, -2445, -2578, -2711, -2845, -2980, -3115, -3250, -3386, -3521, -3658, -3794, -3930, -4067,
    -4203, -4340, -4477, -4613, -4749, -4886, -5021, -5157, -5292, -5427, -5562, -5696, -5829, -5962, -6095, -6227,
    -6358, -6489, -6620, -6749, -6879, -7008, -7136, -7264, -7392, -7519, -7645, -7772, -7898, -8024, -8150, -8276,
    -8402, -8527, -8653, -8779, -8905, -9031, -9158, -9284, -9412, -9539, -9667, -9796, -9925, -10054, -10184, -10315,
    -10446, -10578, -10710, -10843, -10977, -11111, -11245, -11381, -11516, -11652, -11788, -11925, -12062, -12199, -12337, -12474,
    -12612, -12749, -12887, -13024, -13161, -13298, -13435, -13571, -13707, -13842, -13977, -14112, -14246, -14379, -14511, -14643,
    -14775, -14905, -15035, -15165, -15293, -15421, -15549, -15676, -15802, -15928, -16053, -16179, -16303, -16428, -16552, -16676,
    -16800, -16924, -17048, -17172, -17297, -17422, -17547, -17672, -17798, -17925, -18052, -18180, -18308, -18437, -18567, -18698,
    -18829, -18962, -19095, -19229, -19363, -19499, -19635, -19772, -19910, -20048, -20187, -20326, -20466, -20606, -20746, -20886,
    -21027, -21167, -21308, -21448, -21588, -21728, -21867, -22005, -22143, -22281, -22417, -22553, -22688, -22821, -22954, -23086,
    -23217, -23346, -23475, -23602, -23728, -23854, -23978, -24101, -24223, -24345, -24466, -24586, -24705, -24824, -24943, -25061,
    -25179, -25298, -25416, -25535, -25654, -25773, -25894, -26015, -26137, -26260, -26384, -26510, -26637, -26765, -26895, -27027,
    -27161, -27296, -27433, -27572, -27713, -27855, -27999, -28145, -28293, -28442, -28592, -28744, -28896, -29050, -29204, -29359,
    -29514, -29669, -29823, -29977, -30131, -30283, -30433, -30582, -30729, -30873, -31015, -31153, -31288, -31419, -31545, -31668,
    -31785, -31897, -32003, -32104, -32198, -32286, -32367, -32442, -32509, -32569, -32621, -32665, -32702, -32730, -32751, -32763,
    -32767, -32763, -32751, -32730, -32702, -32665, -32621, -32569, -32509, -32442, -32367, -32286, -32198, -32104, -32003, -31897,
    -31785, -31668, -31545, -31419, -31288, -31153, -31015, -30873, -30729, -30582, -30433, -30283, -30131, -29977, -29823, -29669,
    -29514, -29359, -29204, -29050, -28896, -28744, -28592, -28442, -28293, -28145, -27999, -27855, -27713, -27572, -27433, -27296,
    -27161, -27027, -26895, -26765, -26637, -26510, -26384, -26260, -26137, -26015, -25894, -25773, -25654, -25535, -25416, -25298,
    -25179, -25061, -24943, -24824, -24705, -24586, -24466, -24345, -24223, -24101, -23978, -23854, -23728, -23602, -23475, -23346,
    -23217, -23086, -22954, -22821, -22688, -22553, -22417, -22281, -22143, -22005, -21867, -21728, -21588, -21448, -21308, -21167,
    -21027, -20886, -20746, -20606, -20466, -20326, -20187, -20048, -19910, -19772, -19635, -19499, -19363, -19229, -19095, -18962,
    -18829, -18698, -18567, -18437, -18308, -18180, -18052, -17925, -17798, -17672, -17547, -17422, -17297, -17172, -17048, -16924,
    -16800, -16676, -16552, -16428, -16303, -16179, -16053, -15928, -15802, -15676, -15549, -15421, -15293, -15165, -15035, -14905,
    -14775, -14643, -14511, -14379, -14246, -14112, -13977, -13842, -13707, -13571, -13435, -13298, -13161, -13024, -12887, -12749,
    -12612, -12474, -12337, -12199, -12062, -11925, -11788, -11652, -11516, -11381, -11245, -11111, -10977, -10843, -10710, -10578,
    -10446, -10315, -10184, -10054, -9925, -9796, -9667, -9539, -9412, -9284, -9158, -9031, -8905, -8779, -8653, -8527,
    -8402, -8276, -8150, -8024, -7898, -7772, -7645, -7519, -7392, -7264, -7136, -7008, -6879, -6749, -6620, -6489,
    -6358, -6227, -6095, -5962, -5829, -5696, -5562, -5427, -5292, -5157, -5021, -4886, -4749, -4613, -4477, -4340,
    -4203, -4067, -3930, -3794, -3658, -3521, -3386, -3250, -3115, -2980, -2845, -2711, -2578, -2445, -2312, -2180,
    -2048, -1917, -1787, -1656, -1527, -1398, -1269, -1141, -1013, -886, -758, -632, -505, -379, -252, -126,
];

/// Band 6 of the band-limited triangle wave.
#[verifier::opaque]
pub const TRIANGLE_BAND_6: [i16; 1024] = [
    0, 124, 248, 373, 497, 622, 746, 871, 996, 1121, 1246, 1372, 1498, 1624, 1751, 1877,
    2005, 2132, 2260, 2389, 2517, 2647, 2776, 2906, 3037, 3168, 3300, 3432, 3565, 3698, 3831, 3966,
    4100, 4236, 4372, 4508, 4645, 4782, 4920, 5059, 5198, 5337, 5477, 5618, 5759, 5900, 6042, 6184,
    6327, 6470, 6613, 6757, 6901, 7046, 7190, 7335, 7480, 7626, 7771, 7917, 8063, 8209, 8355, 8501,
    8648, 8794, 8940, 9086, 9232, 9378, 9524, 9669, 9815, 9960, 10105, 10249, 10394, 10538, 10681, 10825,
    10967, 11110, 11252, 11394, 11535, 11675, 11815, 11955, 12094, 12232, 12370, 12507, 12644, 12780, 12915, 13050,
    13184, 13317, 13450, 13583, 13714, 13845, 13975, 14105, 14234, 14363, 14491, 14618, 14745, 14871, 14997, 15122,
    15246, 15370, 15494, 15617, 15740, 15863, 15985, 16106, 16228, 16349, 16470, 16591, 16711, 16832, 16952, 17072,
    17193, 17313, 17433, 17553, 17674, 17794, 17915, 18036, 18157, 18279, 18401, 18523, 18646, 18769, 18892, 19017,
    19141, 19266, 19392, 19519, 19646, 19774, 19903, 20032, 20162, 20293, 20425, 20558, 20692, 20826, 20962, 21098,
    21235, 21373, 21513, 21653, 21794, 21936, 22079, 22223, 22368, 22514, 22661, 22809, 22957, 23107, 23257, 23408,
    23561, 23713, 23867, 24021, 24177, 24332, 24489, 24645, 24803, 24961, 25119, 25278, 25437, 25596, 25755, 25915,
    26074, 26234, 26394, 26553, 26712, 26871, 27030, 27188, 27345, 27502, 27659, 27814, 27969, 28123, 28275, 28427,
    28577, 28727, 28874, 29021, 29165, 29309, 29450, 29590, 29727, 29863, 29997, 30128, 30257, 30384, 30508, 30630,
    30749, 30866, 30979, 31090, 31198, 31303, 31405, 31503, 31599, 31691, 31779, 31865, 31946, 32024, 32099, 32170,
    32237, 32300, 32359, 32415, 32467, 32514, 32558, 32597, 32633, 32664, 32691, 32714, 32733, 32748, 32759, 32765,
    32767, 32765, 32759, 32748, 32733, 32714, 32691, 32664, 32633, 32597, 32558, 32514, 32467, 32415, 32359, 32300,
    32237, 32170, 32099, 32024, 31946, 31865, 31779, 31691, 31599, 31503, 31405, 31303, 31198, 31090, 30979, 30866,
    30749, 30630, 30508, 30384, 30257, 30128, 29997, 29863, 29727, 29590, 29450, 29309, 29165, 29021, 28874, 28727,
    28577, 28427, 28275, 28123, 27969, 27814, 27659, 27502, 27345, 27188, 27030, 26871, 26712, 26553, 26394, 26234,
    26074, 25915, 25755, 25596, 25437, 25278, 25119, 24961, 24803, 24645, 24489, 24332, 24177, 24021, 23867, 23713,
    23561, 23408, 23257, 23107, 22957, 22809, 22661, 22514, 22368, 22223, 22079, 21936, 21794, 21653, 21513, 21373,
    21235, 21098, 20962, 20826, 20692, 20558, 20425, 20293, 20162, 20032, 19903, 19774, 19646, 19519, 19392, 19266,
    19141, 19017, 18892, 18769, 18646, 18523, 18401, 18279, 18157, 18036, 17915, 17794, 17674, 17553, 17433, 17313,
    17193, 17072, 16952, 16832, 16711, 16591, 16470, 16349, 16228, 16106, 15985, 15863, 15740, 15617, 15494, 15370,
    15246, 15122, 14997, 14871, 14745, 14618, 14491, 14363, 14234, 14105, 13975, 13845, 13714, 13583, 13450, 13317,
    13184, 13050, 12915, 12780, 12644, 12507, 12370, 12232, 12094, 11955, 11815, 11675, 11535, 11394, 11252, 11110,
    10967, 10825, 10681, 10538, 10394, 10249, 10105, 9960, 9815, 9669, 9524, 9378, 9232, 9086, 8940, 8794,
    8648, 8501, 8355, 8209, 8063, 7917, 7771, 7626, 7480, 7335, 7190, 7046, 6901, 6757, 6613, 6470,
    6327, 6184, 6042, 5900, 5759, 5618, 5477, 5337, 5198, 5059, 4920, 4782, 4645, 4508, 4372, 4236,
    4100, 3966, 3831, 3698, 3565, 3432, 3300, 3168, 3037, 2906, 2776, 2647, 2517, 2389, 2260, 2132,
    2005, 1877, 1751, 1624, 1498, 1372, 1246, 1121, 996, 871, 746, 622, 497, 373, 248, 124,
    0, -124, -248, -373, -497, -622, -746, -871, -996, -1121, -1246, -1372, -1498, -1624, -1751, -1877,
    -2005, -2132, -2260, -2389, -2517, -2647, -2776, -2906, -3037, -3168, -3300, -3432, -3565, -3698, -3831, -3966,
    -4100, -4236, -4372, -4508, -4645, -4782, -4920, -5059, -5198, -5337, -5477, -5618, -5759, -5900, -6042, -6184,
    -6327, -6470, -6613, -6757, -6901, -7046, -7190, -7335, -7480, -7626, -7771, -7917, -8063, -8209, -8355, -8501,
    -8648, -8794, -8940, -9086, -9232, -9378, -9524, -9669, -9815, -9960, -10105, -10249, -10394, -10538, -10681, -10825,
    -10967, -11110, -11252, -11394, -11535, -11675, -11815, -11955, -12094, -12232, -12370, -12507, -12644, -12780, -12915, -13050,
    -13184, -13317, -13450, -13583, -13714, -13845, -13975, -14105, -14234, -14363, -14491, -14618, -14745, -14871, -14997, -15122,
    -15246, -15370, -15494, -15617, -15740, -15863, -15985, -16106, -16228, -16349, -16470, -16591, -16711, -16832, -16952, -17072,
    -17193, -17313, -17433, -17553, -17674, -17794, -17915, -18036, -18157, -18279, -18401, -18523, -18646, -18769, -18892, -19017,
    -19141, -19266, -19392, -19519, -19646, -19774, -19903, -20032, -20162, -20293, -20425, -20558, -20692, -20826, -20962, -21098,
    -21235, -21373, -21513, -21653, -21794, -21936, -22079, -22223, -22368, -22514, -22661, -22809, -22957, -23107, -23257, -23408,
    -23561, -23713, -23867, -24021, -24177, -24332, -24489, -24645, -24803, -24961, -25119, -25278, -25437, -25596, -25755, -25915,
    -26074, -26234, -26394, -26553, -26712, -26871, -27030, -27188, -27345, -27502, -27659, -27814, -27969, -28123, -28275, -28427,
    -28577, -28727, -28874, -29021, -29165, -29309, -29450, -29590, -29727, -29863, -29997, -30128, -30257, -30384, -30508, -30630,
    -30749, -30866, -30979, -31090, -31198, -31303, -31405, -31503, -31599, -31691, -31779, -31865, -31946, -32024, -32099, -32170,
    -32237, -32300, -32359, -32415, -32467, -32514, -32558, -32597, -32633, -32664, -32691, -32714, -32733, -32748, -32759, -32765,
    -32767, -32765, -32759, -32748, -32733, -32714, -32691, -32664, -32633, -32597, -32558, -32514, -32467, -32415, -32359, -32300,
    -32237, -32170, -32099, -32024, -31946, -31865, -31779, -31691, -31599, -31503, -31405, -31303, -31198, -31090, -30979, -30866,
    -30749, -30630, -30508, -30384, -30257, -30128, -29997, -29863, -29727, -29590, -29450, -29309, -29165, -29021, -28874, -28727,
    -28577, -28427, -28275, -28123, -27969, -27814, -27659, -27502, -27345, -27188, -27030, -26871, -26712, -26553, -26394, -26234,
    -26074, -25915, -25755, -25596, -25437, -25278, -25119, -24961, -24803, -24645, -24489, -24332, -24177, -24021, -23867, -23713,
    -23561, -23408, -23257, -23107, -22957, -22809, -22661, -22514, -22368, -22223, -22079, -21936, -21794, -21653, -21513, -21373,
    -21235, -21098, -20962, -20826, -20692, -20558, -20425, -20293, -20162, -20032, -19903, -19774, -19646, -19519, -19392, -19266,
    -19141, -19017, -18892, -18769, -18646, -18523, -18401, -18279, -18157, -18036, -17915, -17794, -17674, -17553, -17433, -17313,
    -17193, -17072, -16952, -16832, -16711, -16591, -16470, -16349, -16228, -16106, -15985, -15863, -15740, -15617, -15494, -15370,
    -15246, -15122, -14997, -14871, -14745, -14618, -14491, -14363, -14234, -14105, -13975, -13845, -13714, -13583, -13450, -13317,
    -13184, -13050, -12915, -12780, -12644, -12507, -12370, -12232, -12094, -11955, -11815, -11675, -11535, -11394, -11252, -11110,
    -10967, -10825, -10681, -10538, -10394, -10249, -10105, -9960, -9815, -9669, -9524, -9378, -9232, -9086, -8940, -8794,
    -8648, -8501, -8355, -8209, -8063, -7917, -7771, -7626, -7480, -7335, -7190, -7046, -6901, -6757, -6613, -6470,
    -6327, -6184, -6042, -5900, -5759, -5618, -5477, -5337, -5198, -5059, -4920, -4782, -4645, -4508, -4372, -4236,
    -4100, -3966, -3831, -3698, -3565, -3432, -3300, -3168, -3037, -2906, -2776, -2647, -2517, -2389, -2260, -2132,
    -2005, -1877, -1751, -1624, -1498, -1372, -1246, -1121, -996, -871, -746, -622, -497, -373, -248, -124,
];

/// Band 7 of the band-limited triangle wave.
#[verifier::opaque]
pub const TRIANGLE_BAND_7: [i16; 1024] = [
    0, 121, 241, 362, 483, 603, 724, 845, 966, 1087, 1209, 1330, 1452, 1573, 1695, 1817,
    1939, 2062, 2185, 2307, 2431, 2554, 2678, 2802, 2926, 3051, 3176, 3301, 3427, 3553, 3679, 3806,
    3933, 4060, 4188, 4317, 4445, 4575, 4704, 4834, 4965, 5096, 5228, 5360, 5492, 5625, 5759, 5893,
    6028, 6163, 6299, 6435, 6572, 6709, 6847, 6985, 7124, 7264, 7404, 7545, 7687, 7829, 7971, 8114,
    8258, 8403, 8548, 8693, 8839, 8986, 9134, 9282, 9430, 9579, 9729, 9880, 10031, 10182, 10335, 10487,
    10641, 10795, 10949, 11104, 11260, 11416, 11573, 11730, 11888, 12047, 12206, 12365, 12525, 12686, 12847, 13008,
    13170, 13333, 13496, 13659, 13823, 13987, 14152, 14317, 14482, 14648, 14814, 14981, 15148, 15315, 15483, 15650,
    15819, 15987, 16156, 16325, 16494, 16663, 16833, 17003, 17173, 17343, 17513, 17683, 17854, 18024, 18195, 18365,
    18536, 18706, 18877, 19048, 19218, 19388, 19559, 19729, 19899, 20069, 20239, 20408, 20577, 20746, 20915, 21084,
    21252, 21420, 21587, 21754, 21921, 22087, 22253, 22418, 22583, 22747, 22911, 23074, 23237, 23399, 23560, 23721,
    23881, 24040, 24199, 24357, 24514, 24670, 24826, 24980, 25134, 25287, 25439, 25590, 25740, 25889, 26036, 26183,
    26329, 26474, 26618, 26760, 26902, 27042, 27181, 27319, 27455, 27590, 27724, 27857, 27988, 28118, 28247, 28374,
    28499, 28624, 28746, 28868, 28987, 29106, 29222, 29337, 29451, 29563, 29673, 29782, 29889, 29994, 30097, 30199,
    30299, 30397, 30494, 30589, 30681, 30772, 30862, 30949, 31034, 31118, 31200, 31279, 31357, 31433, 31506, 31578,
    31648, 31716, 31782, 31845, 31907, 31967, 32024, 32080, 32133, 32185, 32234, 32281, 32326, 32368, 32409, 32448,
    32484, 32518, 32550, 32580, 32607, 32633, 32656, 32677, 32696, 32713, 32727, 32739, 32749, 32757, 32763, 32766,
    32767, 32766, 32763, 32757, 32749, 32739, 32727, 32713, 32696, 32677, 32656, 32633, 32607, 32580, 32550, 32518,
    32484, 32448, 32409, 32368, 32326, 32281, 32234, 32185, 32133, 32080, 32024, 31967, 31907, 31845, 31782, 31716,
    31648, 31578, 31506, 31433, 31357, 31279, 31200, 31118, 31034, 30949, 30862, 30772, 30681, 30589, 30494, 30397,
    30299, 30199, 30097, 29994, 29889, 29782, 29673, 29563, 29451, 29337, 29222, 29106, 28987, 28868, 28746, 28624,
    28499, 28374, 28247, 28118, 27988, 27857, 27724, 27590, 27455, 27319, 27181, 27042, 26902, 26760, 26618, 26474,
    26329, 26183, 26036, 25889, 25740, 25590, 25439, 25287, 25134, 24980, 24826, 24670, 24514, 24357, 24199, 24040,
    23881, 23721, 23560, 23399, 23237, 23074, 22911, 22747, 22583, 22418, 22253, 22087, 21921, 21754, 21587, 21420,
    21252, 21084, 20915, 20746, 20577, 20408, 20239, 20069, 19899, 19729, 19559, 19388, 19218, 19048, 18877, 18706,
    18536, 18365, 18195, 18024, 17854, 17683, 17513, 17343, 17173, 17003, 16833, 16663, 16494, 16325, 16156, 15987,
    15819, 15650, 15483, 15315, 15148, 14981, 14814, 14648, 14482, 14317, 14152, 13987, 13823, 13659, 13496, 13333,
    13170, 13008, 12847, 12686, 12525, 12365, 12206, 12047, 11888, 11730, 11573, 11416, 11260, 11104, 10949, 10795,
    10641, 10487, 10335, 10182, 10031, 9880, 9729, 9579, 9430, 9282, 9134, 8986, 8839, 8693, 8548, 8403,
    8258, 8114, 7971, 7829, 7687, 7545, 7404, 7264, 7124, 6985, 6847, 6709, 6572, 6435, 6299, 6163,
    6028, 5893, 5759, 5625, 5492, 5360, 5228, 5096, 4965, 4834, 4704, 4575, 4445, 4317, 4188, 4060,
    3933, 3806, 3679, 3553, 3427, 3301, 3176, 3051, 2926, 2802, 2678, 2554, 2431, 2307, 2185, 2062,
    1939, 1817, 1695, 1573, 1452, 1330, 1209, 1087, 966, 845, 724, 603, 483, 362, 241, 121,
    0, -121, -241, -362, -483, -603, -724, -845, -966, -1087, -1209, -1330, -1452, -1573, -1695, -1817,
    -1939, -2062, -2185, -2307, -2431, -2554, -2678, -2802, -2926, -3051, -3176, -3301, -3427, -3553, -3679, -3806,
    -3933, -4060, -4188, -4317, -4445, -4575, -4704, -4834, -4965, -5096, -5228, -5360, -5492, -5625, -5759, -5893,
    -6028, -6163, -6299, -6435, -6572, -6709, -6847, -6985, -7124, -7264, -7404, -7545, -7687, -7829, -7971, -8114,
    -8258, -8403, -8548, -8693, -8839, -8986, -9134, -9282, -9430, -9579, -9729, -9880, -10031, -10182, -10335, -10487,
    -10641, -10795, -10949, -11104, -11260, -11416, -11573, -11730, -11888, -12047, -12206, -12365, -12525, -12686, -12847, -13008,
    -13170, -13333, -13496, -13659, -13823, -13987, -14152, -14317, -14482, -14648, -14814, -14981, -15148, -15315, -15483, -15650,
    -15819, -15987, -16156, -16325, -16494, -16663, -16833, -17003, -17173, -17343, -17513, -17683, -17854, -18024, -18195, -18365,
    -18536, -18706, -18877, -19048, -19218, -19388, -19559, -19729, -19899, -20069, -20239, -20408, -20577, -20746, -20915, -21084,
    -21252, -21420, -21587, -21754, -21921, -22087, -22253, -22418, -22583, -22747, -22911, -23074, -23237, -23399, -23560, -23721,
    -23881, -24040, -24199, -24357, -24514, -24670, -24826, -24980, -25134, -25287, -25439, -25590, -25740, -25889, -26036, -26183,
    -26329, -26474, -26618, -26760, -26902, -27042, -27181, -27319, -27455, -27590, -27724, -27857, -27988, -28118, -28247, -28374,
    -28499, -28624, -28746, -28868, -28987, -29106, -29222, -29337, -29451, -29563, -29673, -29782, -29889, -29994, -30097, -30199,
    -30299, -30397, -30494, -30589, -30681, -30772, -30862, -30949, -31034, -31118, -31200, -31279, -31357, -31433, -31506, -31578,
    -31648, -31716, -31782, -31845, -31907, -31967, -32024, -32080, -32133, -32185, -32234, -32281, -32326, -32368, -32409, -32448,
    -32484, -32518, -32550, -32580, -32607, -32633, -32656, -32677, -32696, -32713, -32727, -32739, -32749, -32757, -32763, -32766,
    -32767, -32766, -32763, -32757, -32749, -32739, -32727, -32713, -32696, -32677, -32656, -32633, -32607, -32580, -32550, -32518,
    -32484, -32448, -32409, -32368, -32326, -32281, -32234, -32185, -32133, -32080, -32024, -31967, -31907, -31845, -31782, -31716,
    -31648, -31578, -31506, -31433, -31357, -31279, -31200, -31118, -31034, -30949, -30862, -30772, -30681, -30589, -30494, -30397,
    -30299, -30199, -30097, -29994, -29889, -29782, -29673, -29563, -29451, -29337, -29222, -29106, -28987, -28868, -28746, -28624,
    -28499, -28374, -28247, -28118, -27988, -27857, -27724, -27590, -27455, -27319, -27181, -27042, -26902, -26760, -26618, -26474,
    -26329, -26183, -26036, -25889, -25740, -25590, -25439, -25287, -25134, -24980, -24826, -24670, -24514, -24357, -24199, -24040,
    -23881, -23721, -23560, -23399, -23237, -23074, -22911, -22747, -22583, -22418, -22253, -22087, -21921, -21754, -21587, -21420,
    -21252, -21084, -20915, -20746, -20577, -20408, -20239, -20069, -19899, -19729, -19559, -19388, -19218, -19048, -18877, -18706,
    -18536, -18365, -18195, -18024, -17854, -17683, -17513, -17343, -17173, -17003, -16833, -16663, -16494, -16325, -16156, -15987,
    -15819, -15650, -15483, -15315, -15148, -14981, -14814, -14648, -14482, -14317, -14152, -13987, -13823, -13659, -13496, -13333,
    -13170, -13008, -12847, -12686, -12525, -12365, -12206, -12047, -11888, -11730, -11573, -11416, -11260, -11104, -10949, -10795,
    -10641, -10487, -10335, -10182, -10031, -9880, -9729, -9579, -9430, -9282, -9134, -8986, -8839, -8693, -8548, -8403,
    -8258, -8114, -7971, -7829, -7687, -7545, -7404, -7264, -7124, -6985, -6847, -6709, -6572, -6435, -6299, -6163,
    -6028, -5893, -5759, -5625, -5492, -5360, -5228, -5096, -4965, -4834, -4704, -4575, -4445, -4317, -4188, -4060,
    -3933, -3806, -3679, -3553, -3427, -3301, -3176, -3051, -2926, -2802, -2678, -2554, -2431, -2307, -2185, -2062,
    -1939, -1817, -1695, -1573, -1452, -1330, -1209, -1087, -966, -845, -724, -603, -483, -362, -241, -121,
];

/// Band 8 of the band-limited triangle wave.
#[verifier::opaque]
pub const TRIANGLE_BAND_8: [i16; 1024] = [
    0, 201, 402, 603, 804, 1005, 1206, 1407, 1608, 1809, 2009, 2210, 2410, 2611, 2811, 3012,
    3212, 3412, 3612, 3811, 4011, 4210, 4410, 4609, 4808, 5007, 5205, 5404, 5602, 5800, 5998, 6195,
    6393, 6590, 6786, 6983, 7179, 7375, 7571, 7767, 7962, 8157, 8351, 8545, 8739, 8933, 9126, 9319,
    9512, 9704, 9896, 10087, 10278, 10469, 10659, 10849, 11039, 11228, 11417, 11605, 11793, 11980, 12167, 12353,
    12539, 12725, 12910, 13094, 13279, 13462, 13645, 13828, 14010, 14191, 14372, 14553, 14732, 14912, 15090, 15269,
    15446, 15623, 15800, 15976, 16151, 16325, 16499, 16673, 16846, 17018, 17189, 17360, 17530, 17700, 17869, 18037,
    18204, 18371, 18537, 18703, 18868, 19032, 19195, 19357, 19519, 19680, 19841, 20000, 20159, 20317, 20475, 20631,
    20787, 20942, 21096, 21250, 21403, 21554, 21705, 21856, 22005, 22154, 22301, 22448, 22594, 22739, 22884, 23027,
    23170, 23311, 23452, 23592, 23731, 23870, 24007, 24143, 24279, 24413, 24547, 24680, 24811, 24942, 25072, 25201,
    25329, 25456, 25582, 25708, 25832, 25955, 26077, 26198, 26319, 26438, 26556, 26674, 26790, 26905, 27019, 27133,
    27245, 27356, 27466, 27575, 27683, 27790, 27896, 28001, 28105, 28208, 28310, 28411, 28510, 28609, 28706, 28803,
    28898, 28992, 29085, 29177, 29268, 29358, 29447, 29534, 29621, 29706, 29791, 29874, 29956, 30037, 30117, 30195,
    30273, 30349, 30424, 30498, 30571, 30643, 30714, 30783, 30852, 30919, 30985, 31050, 31113, 31176, 31237, 31297,
    31356, 31414, 31470, 31526, 31580, 31633, 31685, 31736, 31785, 31833, 31880, 31926, 31971, 32014, 32057, 32098,
    32137, 32176, 32213, 32250, 32285, 32318, 32351, 32382, 32412, 32441, 32469, 32495, 32521, 32545, 32567, 32589,
    32609, 32628, 32646, 32663, 32678, 32692, 32705, 32717, 32728, 32737, 32745, 32752, 32757, 32761, 32765, 32766,
    32767, 32766, 32765, 32761, 32757, 32752, 32745, 32737, 32728, 32717, 32705, 32692, 32678, 32663, 32646, 32628,
    32609, 32589, 32567, 32545, 32521, 32495, 32469, 32441, 32412, 32382, 32351, 32318, 32285, 32250, 32213, 32176,
    32137, 32098, 32057, 32014, 31971, 31926, 31880, 31833, 31785, 31736, 31685, 31633, 31580, 31526, 31470, 31414,
    31356, 31297, 31237, 31176, 31113, 31050, 30985, 30919, 30852, 30783, 30714, 30643, 30571, 30498, 30424, 30349,
    30273, 30195, 30117, 30037, 29956, 29874, 29791, 29706, 29621, 29534, 29447, 29358, 29268, 29177, 29085, 28992,
    28898, 28803, 28706, 28609, 28510, 28411, 28310, 28208, 28105, 28001, 27896, 27790, 27683, 27575, 27466, 27356,
    27245, 27133, 27019, 26905, 26790, 26674, 26556, 26438, 26319, 26198, 26077, 25955, 25832, 25708, 25582, 25456,
    25329, 25201, 25072, 24942, 24811, 24680, 24547, 24413, 24279, 24143, 24007, 23870, 23731, 23592, 23452, 23311,
    23170, 23027, 22884, 22739, 22594, 22448, 22301, 22154, 22005, 21856, 21705, 21554, 21403, 21250, 21096, 20942,
    20787, 20631, 20475, 20317, 20159, 20000, 19841, 19680, 19519, 19357, 19195, 19032, 18868, 18703, 18537, 18371,
    18204, 18037, 17869, 17700, 17530, 17360, 17189, 17018, 16846, 16673, 16499, 16325, 16151, 15976, 15800, 15623,
    15446, 15269, 15090, 14912, 14732, 14553, 14372, 14191, 14010, 13828, 13645, 13462, 13279, 13094, 12910, 12725,
    12539, 12353, 12167, 11980, 11793, 11605, 11417, 11228, 11039, 10849, 10659, 10469, 10278, 10087, 9896, 9704,
    9512, 9319, 9126, 8933, 8739, 8545, 8351, 8157, 7962, 7767, 7571, 7375, 7179, 6983, 6786, 6590,
    6393, 6195, 5998, 5800, 5602, 5404, 5205, 5007, 4808, 4609, 4410, 4210, 4011, 3811, 3612, 3412,
    3212, 3012, 2811, 2611, 2410, 2210, 2009, 1809, 1608, 1407, 1206, 1005, 804, 603, 402, 201,
    0, -201, -402, -603, -804, -1005, -1206, -1407, -1608, -1809, -2009, -2210, -2410, -2611, -2811, -3012,
    -3212, -3412, -3612, -3811, -4011, -4210, -4410, -4609, -4808, -5007, -5205, -5404, -5602, -5800, -5998, -6195,
    -6393, -6590, -6786, -6983, -7179, -7375, -7571, -7767, -7962, -8157, -8351, -8545, -8739, -8933, -9126, -9319,
    -9512, -9704, -9896, -10087, -10278, -10469, -10659, -10849, -11039, -11228, -11417, -11605, -11793, -11980, -12167, -12353,
    -12539, -12725, -12910, -13094, -13279, -13462, -13645, -13828, -14010, -14191, -14372, -14553, -14732, -14912, -15090, -15269,
    -15446, -15623, -15800, -15976, -16151, -16325, -16499, -16673, -16846, -17018, -17189, -17360, -17530, -17700, -17869, -18037,
    -18204, -18371, -18537, -18703, -18868, -19032, -19195, -19357, -19519, -19680, -19841, -20000, -20159, -20317, -20475, -20631,
    -20787, -20942, -21096, -21250, -21403, -21554, -21705, -21856, -22005, -22154, -22301, -22448, -22594, -22739, -22884, -23027,
    -23170, -23311, -23452, -23592, -23731, -23870, -24007, -24143, -24279, -24413, -24547, -24680, -24811, -24942, -25072, -25201,
    -25329, -25456, -25582, -25708, -25832, -25955, -26077, -26198, -26319, -26438, -26556, -26674, -26790, -26905, -27019, -27133,
    -27245, -27356, -27466, -27575, -27683, -27790, -27896, -28001, -28105, -28208, -28310, -28411, -28510, -28609, -28706, -28803,
    -28898, -28992, -29085, -29177, -29268, -29358, -29447, -29534, -29621, -29706, -29791, -29874, -29956, -30037, -30117, -30195,
    -30273, -30349, -30424, -30498, -30571, -30643, -30714, -30783, -30852, -30919, -30985, -31050, -31113, -31176, -31237, -31297,
    -31356, -31414, -31470, -31526, -31580, -31633, -31685, -31736, -31785, -31833, -31880, -31926, -31971, -32014, -32057, -32098,
    -32137, -32176, -32213, -32250, -32285, -32318, -32351, -32382, -32412, -32441, -32469, -32495, -32521, -32545, -32567, -32589,
    -32609, -32628, -32646, -32663, -32678, -32692, -32705, -32717, -32728, -32737, -32745, -32752, -32757, -32761, -32765, -32766,
    -32767, -32766, -32765, -32761, -32757, -32752, -32745, -32737, -32728, -32717, -32705, -32692, -32678, -32663, -32646, -32628,
    -32609, -32589, -32567, -32545, -32521, -32495, -32469, -32441, -32412, -32382, -32351, -32318, -32285, -32250, -32213, -32176,
    -32137, -32098, -32057, -32014, -31971, -31926, -31880, -31833, -31785, -31736, -31685, -31633, -31580, -31526, -31470, -31414,
    -31356, -31297, -31237, -31176, -31113, -31050, -30985, -30919, -30852, -30783, -30714, -30643, -30571, -30498, -30424, -30349,
    -30273, -30195, -30117, -30037, -29956, -29874, -29791, -29706, -29621, -29534, -29447, -29358, -29268, -29177, -29085, -28992,
    -28898, -28803, -28706, -28609, -28510, -28411, -28310, -28208, -28105, -28001, -27896, -27790, -27683, -27575, -27466, -27356,
    -27245, -27133, -27019, -26905, -26790, -26674, -26556, -26438, -26319, -26198, -26077, -25955, -25832, -25708, -25582, -25456,
    -25329, -25201, -25072, -24942, -24811, -24680, -24547, -24413, -24279, -24143, -24007, -23870, -23731, -23592, -23452, -23311,
    -23170, -23027, -22884, -22739, -22594, -22448, -22301, -22154, -22005, -21856, -21705, -21554, -21403, -21250, -21096, -20942,
    -20787, -20631, -20475, -20317, -20159, -20000, -19841, -19680, -19519, -19357, -19195, -19032, -18868, -18703, -18537, -18371,
    -18204, -18037, -17869, -17700, -17530, -17360, -17189, -17018, -16846, -16673, -16499, -16325, -16151, -15976, -15800, -15623,
    -15446, -15269, -15090, -14912, -14732, -14553, -14372, -14191, -14010, -13828, -13645, -13462, -13279, -13094, -12910, -12725,
    -12539, -12353, -12167, -11980, -11793, -11605, -11417, -11228, -11039, -10849, -10659, -10469, -10278, -10087, -9896, -9704,
    -9512, -9319, -9126, -8933, -8739, -8545, -8351, -8157, -7962, -7767, -7571, -7375, -7179, -6983, -6786, -6590,
    -6393, -6195, -5998, -5800, -5602, -5404, -5205, -5007, -4808, -4609, -4410, -4210, -4011, -3811, -3612, -3412,
    -3212, -3012, -2811, -2611, -2410, -2210, -2009, -1809, -1608, -1407, -1206, -1005, -804, -603, -402, -201,
];

/// Band 9 of the band-limited triangle wave.
#[verifier::opaque]
pub const TRIANGLE_BAND_9: [i16; 1024] = [
    0, 201, 402, 603, 804, 1005, 1206, 1407, 1608, 1809, 2009, 2210, 2410, 2611, 2811, 3012,
    3212, 3412, 3612, 3811, 4011, 4210, 4410, 4609, 4808, 5007, 5205, 5404, 5602, 5800, 5998, 6195,
    6393, 6590, 6786, 6983, 7179, 7375, 7571, 7767, 7962, 8157, 8351, 8545, 8739, 8933, 9126, 9319,
    9512, 9704, 9896, 10087, 10278, 10469, 10659, 10849, 11039, 11228, 11417, 11605, 11793, 11980, 12167, 12353,
    12539, 12725, 12910, 13094, 13279, 13462, 13645, 13828, 14010, 14191, 14372, 14553, 14732, 14912, 15090, 15269,
    15446, 15623, 15800, 15976, 16151, 16325, 16499, 16673, 16846, 17018, 17189, 17360, 17530, 17700, 17869, 18037,
    18204, 18371, 18537, 18703, 18868, 19032, 19195, 19357, 19519, 19680, 19841, 20000, 20159, 20317, 20475, 20631,
    20787, 20942, 21096, 21250, 21403, 21554, 21705, 21856, 22005, 22154, 22301, 22448, 22594, 22739, 22884, 23027,
    23170, 23311, 23452, 23592, 23731, 23870, 24007, 24143, 24279, 24413, 24547, 24680, 24811, 24942, 25072, 25201,
    25329, 25456, 25582, 25708, 25832, 25955, 26077, 26198, 26319, 26438, 26556, 26674, 26790, 26905, 27019, 27133,
    27245, 27356, 27466, 27575, 27683, 27790, 27896, 28001, 28105, 28208, 28310, 28411, 28510, 28609, 28706, 28803,
    28898, 28992, 29085, 29177, 29268, 29358, 29447, 29534, 29621, 29706, 29791, 29874, 29956, 30037, 30117, 30195,
    30273, 30349, 30424, 30498, 30571, 30643, 30714, 30783, 30852, 30919, 30985, 31050, 31113, 31176, 31237, 31297,
    31356, 31414, 31470, 31526, 31580, 31633, 31685, 31736, 31785, 31833, 31880, 31926, 31971, 32014, 32057, 32098,
    32137, 32176, 32213, 32250, 32285, 32318, 32351, 32382, 32412, 32441, 32469, 32495, 32521, 32545, 32567, 32589,
    32609, 32628, 32646, 32663, 32678, 32692, 32705, 32717, 32728, 32737, 32745, 32752, 32757, 32761, 32765, 32766,
    32767, 32766, 32765, 32761, 32757, 32752, 32745, 32737, 32728, 32717, 32705, 32692, 32678, 32663, 32646, 32628,
    32609, 32589, 32567, 32545, 32521, 32495, 32469, 32441, 32412, 32382, 32351, 32318, 32285, 32250, 32213, 32176,
    32137, 32098, 32057, 32014, 31971, 31926, 31880, 31833, 31785, 31736, 31685, 31633, 31580, 31526, 31470, 31414,
    31356, 31297, 31237, 31176, 31113, 31050, 30985, 30919, 30852, 30783, 30714, 30643, 30571, 30498, 30424, 30349,
    30273, 30195, 30117, 30037, 29956, 29874, 29791, 29706, 29621, 29534, 29447, 29358, 29268, 29177, 29085, 28992,
    28898, 28803, 28706, 28609, 28510, 28411, 28310, 28208, 28105, 28001, 27896, 27790, 27683, 27575, 27466, 27356,
    27245, 27133, 27019, 26905, 26790, 26674, 26556, 26438, 26319, 26198, 26077, 25955, 25832, 25708, 25582, 25456,
    25329, 25201, 25072, 24942, 24811, 24680, 24547, 24413, 24279, 24143, 24007, 23870, 23731, 23592, 23452, 23311,
    23170, 23027, 22884, 22739, 22594, 22448, 22301, 22154, 22005, 21856, 21705, 21554, 21403, 21250, 21096, 20942,
    20787, 20631, 20475, 20317, 20159, 20000, 19841, 19680, 19519, 19357, 19195, 19032, 18868, 18703, 18537, 18371,
    18204, 18037, 17869, 17700, 17530, 17360, 17189, 17018, 16846, 16673, 16499, 16325, 16151, 15976, 15800, 15623,
    15446, 15269, 15090, 14912, 14732, 14553, 14372, 14191, 14010, 13828, 13645, 13462, 13279, 13094, 12910, 12725,
    12539, 12353, 12167, 11980, 11793, 11605, 11417, 11228, 11039, 10849, 10659, 10469, 10278, 10087, 9896, 9704,
    9512, 9319, 9126, 8933, 8739, 8545, 8351, 8157, 7962, 7767, 7571, 7375, 7179, 6983, 6786, 6590,
    6393, 6195, 5998, 5800, 5602, 5404, 5205, 5007, 4808, 4609, 4410, 4210, 4011, 3811, 3612, 3412,
    3212, 3012, 2811, 2611, 2410, 2210, 2009, 1809, 1608, 1407, 1206, 1005, 804, 603, 402, 201,
    0, -201, -402, -603, -804, -1005, -1206, -1407, -1608, -1809, -2009, -2210, -2410, -2611, -2811, -3012,
    -3212, -3412, -3612, -3811, -4011, -4210, -4410, -4609, -4808, -5007, -5205, -5404, -5602, -5800, -5998, -6195,
    -6393, -6590, -6786, -6983, -7179, -7375, -7571, -7767, -7962, -8157, -8351, -8545, -8739, -8933, -9126, -9319,
    -9512, -9704, -9896, -10087, -10278, -10469, -10659, -10849, -11039, -11228, -11417, -11605, -11793, -11980, -12167, -12353,
    -12539, -12725, -12910, -13094, -13279, -13462, -13645, -13828, -14010, -14191, -14372, -14553, -14732, -14912, -15090, -15269,
    -15446, -15623, -15800, -15976, -16151, -16325, -16499, -16673, -16846, -17018, -17189, -17360, -17530, -17700, -17869, -18037,
    -18204, -18371, -18537, -18703, -18868, -19032, -19195, -19357, -19519, -19680, -19841, -20000, -20159, -20317, -20475, -20631,
    -20787, -20942, -21096, -21250, -21403, -21554, -21705, -21856, -22005, -22154, -22301, -22448, -22594, -22739, -22884, -23027,
    -23170, -23311, -23452, -23592, -23731, -23870, -24007, -24143, -24279, -24413, -24547, -24680, -24811, -24942, -25072, -25201,
    -25329, -25456, -25582, -25708, -25832, -25955, -26077, -26198, -26319, -26438, -26556, -26674, -26790, -26905, -27019, -27133,
    -27245, -27356, -27466, -27575, -27683, -27790, -27896, -28001, -28105, -28208, -28310, -28411, -28510, -28609, -28706, -28803,
    -28898, -28992, -29085, -29177, -29268, -29358, -29447, -29534, -29621, -29706, -29791, -29874, -29956, -30037, -30117, -30195,
    -30273, -30349, -30424, -30498, -30571, -30643, -30714, -30783, -30852, -30919, -30985, -31050, -31113, -31176, -31237, -31297,
    -31356, -31414, -31470, -31526, -31580, -31633, -31685, -31736, -31785, -31833, -31880, -31926, -31971, -32014, -32057, -32098,
    -32137, -32176, -32213, -32250, -32285, -32318, -32351, -32382, -32412, -32441, -32469, -32495, -32521, -32545, -32567, -32589,
    -32609, -32628, -32646, -32663, -32678, -32692, -32705, -32717, -32728, -32737, -32745, -32752, -32757, -32761, -32765, -32766,
    -32767, -32766, -32765, -32761, -32757, -32752, -32745, -32737, -32728, -32717, -32705, -32692, -32678, -32663, -32646, -32628,
    -32609, -32589, -32567, -32545, -32521, -32495, -32469, -32441, -32412, -32382, -32351, -32318, -32285, -32250, -32213, -32176,
    -32137, -32098, -32057, -32014, -31971, -31926, -31880, -31833, -31785, -31736, -31685, -31633, -31580, -31526, -31470, -31414,
    -31356, -31297, -31237, -31176, -31113, -31050, -30985, -30919, -30852, -30783, -30714, -30643, -30571, -30498, -30424, -30349,
    -30273, -30195, -30117, -30037, -29956, -29874, -29791, -29706, -29621, -29534, -29447, -29358, -29268, -29177, -29085, -28992,
    -28898, -28803, -28706, -28609, -28510, -28411, -28310, -28208, -28105, -28001, -27896, -27790, -27683, -27575, -27466, -27356,
    -27245, -27133, -27019, -26905, -26790, -26674, -26556, -26438, -26319, -26198, -26077, -25955, -25832, -25708, -25582, -25456,
    -25329, -25201, -25072, -24942, -24811, -24680, -24547, -24413, -24279, -24143, -24007, -23870, -23731, -23592, -23452, -23311,
    -23170, -23027, -22884, -22739, -22594, -22448, -22301, -22154, -22005, -21856, -21705, -21554, -21403, -21250, -21096, -20942,
    -20787, -20631, -20475, -20317, -20159, -20000, -19841, -19680, -19519, -19357, -19195, -19032, -18868, -18703, -18537, -18371,
    -18204, -18037, -17869, -17700, -17530, -17360, -17189, -17018, -16846, -16673, -16499, -16325, -16151, -15976, -15800, -15623,
    -15446, -15269, -15090, -14912, -14732, -14553, -14372, -14191, -14010, -13828, -13645, -13462, -13279, -13094, -12910, -12725,
    -12539, -12353, -12167, -11980, -11793, -11605, -11417, -11228, -11039, -10849, -10659, -10469, -10278, -10087, -9896, -9704,
    -9512, -9319, -9126, -8933, -8739, -8545, -8351, -8157, -7962, -7767, -7571, -7375, -7179, -6983, -6786, -6590,
    -6393, -6195, -5998, -5800, -5602, -5404, -5205, -5007, -4808, -4609, -4410, -4210, -4011, -3811, -3612, -3412,
    -3212, -3012, -2811, -2611, -2410, -2210, -2009, -1809, -1608, -1407, -1206, -1005, -804, -603, -402, -201,
];

/// The band-limited triangle table of `band` (0 to 9).
pub open spec fn triangle_table(band: int) -> Seq<i16> {
    if band == 0 {
        TRIANGLE_BAND_0@
    } else if band == 1 {
        TRIANGLE_BAND_1@
    } else if band == 2 {
        TRIANGLE_BAND_2@
    } else if band == 3 {
        TRIANGLE_BAND_3@
    } else if band == 4 {
        TRIANGLE_BAND_4@
    } else if band == 5 {
        TRIANGLE_BAND_5@
    } else if band == 6 {
        TRIANGLE_BAND_6@
    } else if band == 7 {
        TRIANGLE_BAND_7@
    } else if band == 8 {
        TRIANGLE_BAND_8@
    } else {
        TRIANGLE_BAND_9@
    }
}

/// Entry `index` of the band-limited triangle table of `band`.
pub fn triangle_sample(band: usize, index: usize) -> (r: i16)
    requires
        band < NUM_BANDS,
        index < TABLE_SIZE,
    ensures
        r == triangle_table(band as int)[index as int],
{
    match band {
        0 => TRIANGLE_BAND_0[index],
        1 => TRIANGLE_BAND_1[index],
        2 => TRIANGLE_BAND_2[index],
        3 => TRIANGLE_BAND_3[index],
        4 => TRIANGLE_BAND_4[index],
        5 => TRIANGLE_BAND_5[index],
        6 => TRIANGLE_BAND_6[index],
        7 => TRIANGLE_BAND_7[index],
        8 => TRIANGLE_BAND_8[index],
        _ => TRIANGLE_BAND_9[index],
    }
}

} // verus!
