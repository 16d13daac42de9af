use vstd::prelude::*;
use rand::rngs::ThreadRng;
use crate::cursor::MyWorldCoords;
use crate::geom::{Point, UNITS, in_world, norm_sq, dist_sq};
use crate::random::draw_in;
use vstd::arithmetic::div_mod::{lemma_fundamental_div_mod, lemma_mod_pos_bound, lemma_div_pos_is_pos};
use crate::scene::{Ball, World, NUM_BALLS};

verus! {

/// Balls are thrown to less than this distance from the cursor.
pub const POS_MAX: i64 = 5 * UNITS;

/// Lower bound (inclusive) of each velocity component of a thrown ball.
pub const VEL_MIN: i64 = -1000 * UNITS;

/// Upper bound (exclusive) of each velocity component of a thrown ball.
pub const VEL_MAX: i64 = 1000 * UNITS;

/// What one ball receives when thrown: its offset from the cursor and its
/// new velocity.
#[derive(Clone, Copy, Debug, PartialEq, Eq, Structural)]
pub struct Kick {
    pub offset: Point,
    pub velocity: Point,
}

pub open spec fn velocity_ok(v: Point) -> bool {
    VEL_MIN <= v.x < VEL_MAX && VEL_MIN <= v.y < VEL_MAX
}

/// The offset lies strictly inside the disc of radius `POS_MAX` and each
/// velocity component within `[VEL_MIN, VEL_MAX)`.
pub open spec fn kick_ok(k: Kick) -> bool {
    norm_sq(k.offset) < POS_MAX * POS_MAX && velocity_ok(k.velocity)
}

/// The ball a kick makes, thrown around `cursor`.
pub open spec fn kicked(cursor: Point, k: Kick) -> Ball {
    Ball {
        position: Point { x: (cursor.x + k.offset.x) as i64, y: (cursor.y + k.offset.y) as i64 },
        velocity: k.velocity,
    }
}

/// The ball lies less than `POS_MAX` from `cursor` and moves with a velocity
/// in bounds.
pub open spec fn scattered(b: Ball, cursor: Point) -> bool {
    dist_sq(b.position, cursor) < POS_MAX * POS_MAX && velocity_ok(b.velocity)
}

/// Steps of a unit length in the direction table.
pub const DIR_UNIT: i64 = 1_000_000;

/// Number of directions a ball may be thrown in, evenly spread over a turn:
/// the angle of a throw is quantised to this many steps.
pub const NUM_DIRECTIONS: i64 = 1024;

/// Directions per quarter turn.
pub const QUARTER: i64 = 256;

/// Cosine and sine of `j` steps of `NUM_DIRECTIONS` in a turn, for `j` in
/// the first quarter (`0 <= j < QUARTER`), in millionths rounded toward zero.
#[verifier::opaque]
pub open spec fn quarter_dir(j: i64) -> (int, int) {
    match j {
        0 => (1000000, 0),
        1 => (999981, 6135),
        2 => (999924, 12271),
        3 => (999830, 18406),
        4 => (999698, 24541),
        5 => (999529, 30674),
        6 => (999322, 36807),
        7 => (999077, 42938),
        8 => (998795, 49067),
        9 => (998475, 55195),
        10 => (998118, 61320),
        11 => (997723, 67443),
        12 => (997290, 73564),
        13 => (996820, 79682),
        14 => (996312, 85797),
        15 => (995767, 91908),
        16 => (995184, 98017),
        17 => (994564, 104121),
        18 => (993906, 110222),
        19 => (993211, 116318),
        20 => (992479, 122410),
        21 => (991709, 128498),
        22 => (990902, 134580),
        23 => (990058, 140658),
        24 => (989176, 146730),
        25 => (988257, 152797),
        26 => (987301, 158858),
        27 => (986308, 164913),
        28 => (985277, 170961),
        29 => (984210, 177004),
        30 => (983105, 183039),
        31 => (981963, 189068),
        32 => (980785, 195090),
        33 => (979569, 201104),
        34 => (978317, 207111),
        35 => (977028, 213110),
        36 => (975702, 219101),
        37 => (974339, 225083),
        38 => (972939, 231058),
        39 => (971503, 237023),
        40 => (970031, 242980),
        41 => (968522, 248927),
        42 => (966976, 254865),
        43 => (965394, 260794),
        44 => (963776, 266712),
        45 => (962121, 272621),
        46 => (960430, 278519),
        47 => (958703, 284407),
        48 => (956940, 290284),
        49 => (955141, 296150),
        50 => (953306, 302005),
        51 => (951435, 307849),
        52 => (949528, 313681),
        53 => (947585, 319502),
        54 => (945607, 325310),
        55 => (943593, 331106),
        56 => (941544, 336889),
        57 => (939459, 342660),
        58 => (937339, 348418),
        59 => (935183, 354163),
        60 => (932992, 359895),
        61 => (930766, 365612),
        62 => (928506, 371317),
        63 => (926210, 377007),
        64 => (923879, 382683),
        65 => (921514, 388345),
        66 => (919113, 393992),
        67 => (916679, 399624),
        68 => (914209, 405241),
        69 => (911706, 410843),
        70 => (909167, 416429),
        71 => (906595, 422000),
        72 => (903989, 427555),
        73 => (901348, 433093),
        74 => (898674, 438616),
        75 => (895966, 444122),
        76 => (893224, 449611),
        77 => (890448, 455083),
        78 => (887639, 460538),
        79 => (884797, 465976),
        80 => (881921, 471396),
        81 => (879012, 476799),
        82 => (876070, 482183),
        83 => (873094, 487550),
        84 => (870086, 492898),
        85 => (867046, 498227),
        86 => (863972, 503538),
        87 => (860866, 508830),
        88 => (857728, 514102),
        89 => (854557, 519355),
        90 => (851355, 524589),
        91 => (848120, 529803),
        92 => (844853, 534997),
        93 => (841554, 540171),
        94 => (838224, 545324),
        95 => (834862, 550457),
        96 => (831469, 555570),
        97 => (828045, 560661),
        98 => (824589, 565731),
        99 => (821102, 570780),
        100 => (817584, 575808),
        101 => (814036, 580813),
        102 => (810457, 585797),
        103 => (806847, 590759),
        104 => (803207, 595699),
        105 => (799537, 600616),
        106 => (795836, 605511),
        107 => (792106, 610382),
        108 => (788346, 615231),
        109 => (784556, 620057),
        110 => (780737, 624859),
        111 => (776888, 629638),
        112 => (773010, 634393),
        113 => (769103, 639124),
        114 => (765167, 643831),
        115 => (761202, 648514),
        116 => (757208, 653172),
        117 => (753186, 657806),
        118 => (749136, 662415),
        119 => (745057, 666999),
        120 => (740951, 671558),
        121 => (736816, 676092),
        122 => (732654, 680600),
        123 => (728464, 685083),
        124 => (724247, 689540),
        125 => (720002, 693971),
        126 => (715730, 698376),
        127 => (711432, 702754),
        128 => (707106, 707106),
        129 => (702754, 711432),
        130 => (698376, 715730),
        131 => (693971, 720002),
        132 => (689540, 724247),
        133 => (685083, 728464),
        134 => (680600, 732654),
        135 => (676092, 736816),
        136 => (671558, 740951),
        137 => (666999, 745057),
        138 => (662415, 749136),
        139 => (657806, 753186),
        140 => (653172, 757208),
        141 => (648514, 761202),
        142 => (643831, 765167),
        143 => (639124, 769103),
        144 => (634393, 773010),
        145 => (629638, 776888),
        146 => (624859, 780737),
        147 => (620057, 784556),
        148 => (615231, 788346),
        149 => (610382, 792106),
        150 => (605511, 795836),
        151 => (600616, 799537),
        152 => (595699, 803207),
        153 => (590759, 806847),
        154 => (585797, 810457),
        155 => (580813, 814036),
        156 => (575808, 817584),
        157 => (570780, 821102),
        158 => (565731, 824589),
        159 => (560661, 828045),
        160 => (555570, 831469),
        161 => (550457, 834862),
        162 => (545324, 838224),
        163 => (540171, 841554),
        164 => (534997, 844853),
        165 => (529803, 848120),
        166 => (524589, 851355),
        167 => (519355, 854557),
        168 => (514102, 857728),
        169 => (508830, 860866),
        170 => (503538, 863972),
        171 => (498227, 867046),
        172 => (492898, 870086),
        173 => (487550, 873094),
        174 => (482183, 876070),
        175 => (476799, 879012),
        176 => (471396, 881921),
        177 => (465976, 884797),
        178 => (460538, 887639),
        179 => (455083, 890448),
        180 => (449611, 893224),
        181 => (444122, 895966),
        182 => (438616, 898674),
        183 => (433093, 901348),
        184 => (427555, 903989),
        185 => (422000, 906595),
        186 => (416429, 909167),
        187 => (410843, 911706),
        188 => (405241, 914209),
        189 => (399624, 916679),
        190 => (393992, 919113),
        191 => (388345, 921514),
        192 => (382683, 923879),
        193 => (377007, 926210),
        194 => (371317, 928506),
        195 => (365612, 930766),
        196 => (359895, 932992),
        197 => (354163, 935183),
        198 => (348418, 937339),
        199 => (342660, 939459),
        200 => (336889, 941544),
        201 => (331106, 943593),
        202 => (325310, 945607),
        203 => (319502, 947585),
        204 => (313681, 949528),
        205 => (307849, 951435),
        206 => (302005, 953306),
        207 => (296150, 955141),
        208 => (290284, 956940),
        209 => (284407, 958703),
        210 => (278519, 960430),
        211 => (272621, 962121),
        212 => (266712, 963776),
        213 => (260794, 965394),
        214 => (254865, 966976),
        215 => (248927, 968522),
        216 => (242980, 970031),
        217 => (237023, 971503),
        218 => (231058, 972939),
        219 => (225083, 974339),
        220 => (219101, 975702),
        221 => (213110, 977028),
        222 => (207111, 978317),
        223 => (201104, 979569),
        224 => (195090, 980785),
        225 => (189068, 981963),
        226 => (183039, 983105),
        227 => (177004, 984210),
        228 => (170961, 985277),
        229 => (164913, 986308),
        230 => (158858, 987301),
        231 => (152797, 988257),
        232 => (146730, 989176),
        233 => (140658, 990058),
        234 => (134580, 990902),
        235 => (128498, 991709),
        236 => (122410, 992479),
        237 => (116318, 993211),
        238 => (110222, 993906),
        239 => (104121, 994564),
        240 => (98017, 995184),
        241 => (91908, 995767),
        242 => (85797, 996312),
        243 => (79682, 996820),
        244 => (73564, 997290),
        245 => (67443, 997723),
        246 => (61320, 998118),
        247 => (55195, 998475),
        248 => (49067, 998795),
        249 => (42938, 999077),
        250 => (36807, 999322),
        251 => (30674, 999529),
        252 => (24541, 999698),
        253 => (18406, 999830),
        254 => (12271, 999924),
        _ => (6135, 999981),
    }
}

/// The offset of a throw in direction `dir` (of `NUM_DIRECTIONS`) at
/// distance `dist`: the distance times the direction's cosine and sine in
/// the first quarter, rounded toward zero, then turned by `dir / QUARTER`
/// quarter turns.
pub open spec fn spec_offset(dir: int, dist: int) -> Point {
    let cs = quarter_dir((dir % (QUARTER as int)) as i64);
    let a = dist * cs.0 / (DIR_UNIT as int);
    let b = dist * cs.1 / (DIR_UNIT as int);
    let q = dir / (QUARTER as int);
    if q == 0 {
        Point { x: a as i64, y: b as i64 }
    } else if q == 1 {
        Point { x: (-b) as i64, y: a as i64 }
    } else if q == 2 {
        Point { x: (-a) as i64, y: (-b) as i64 }
    } else {
        Point { x: b as i64, y: (-a) as i64 }
    }
}

/// The kick that the draws `dir`, `dist`, `vx` and `vy` make.
pub open spec fn spec_kick(dir: int, dist: int, vx: i64, vy: i64) -> Kick {
    Kick { offset: spec_offset(dir, dist), velocity: Point { x: vx, y: vy } }
}

/// `k` is what some draws in range make: a direction, a distance under
/// `POS_MAX`, and a velocity in bounds.
pub open spec fn drawn(k: Kick) -> bool {
    exists|d: int, r: int, vx: i64, vy: i64|
        0 <= d < NUM_DIRECTIONS && 0 <= r < POS_MAX && velocity_ok(Point { x: vx, y: vy })
            && #[trigger] spec_kick(d, r, vx, vy) == k
}

/// `b` is a ball thrown around `cursor` by a kick that draws in range make.
pub open spec fn thrown(b: Ball, cursor: Point) -> bool {
    exists|k: Kick| drawn(k) && #[trigger] kicked(cursor, k) == b
}

/// The table entry of `j`: a vector of length at most one.
fn quarter_direction(j: i64) -> (r: (i64, i64))
    requires
        0 <= j < QUARTER,
    ensures
        r.0 as int == quarter_dir(j).0,
        r.1 as int == quarter_dir(j).1,
        0 <= r.0 <= DIR_UNIT,
        0 <= r.1 <= DIR_UNIT,
        r.0 * r.0 + r.1 * r.1 <= DIR_UNIT * DIR_UNIT,
{
    proof { reveal(quarter_dir); }
    match j {
        0 => (1000000, 0),
        1 => (999981, 6135),
        2 => (999924, 12271),
        3 => (999830, 18406),
        4 => (999698, 24541),
        5 => (999529, 30674),
        6 => (999322, 36807),
        7 => (999077, 42938),
        8 => (998795, 49067),
        9 => (998475, 55195),
        10 => (998118, 61320),
        11 => (997723, 67443),
        12 => (997290, 73564),
        13 => (996820, 79682),
        14 => (996312, 85797),
        15 => (995767, 91908),
        16 => (995184, 98017),
        17 => (994564, 104121),
        18 => (993906, 110222),
        19 => (993211, 116318),
        20 => (992479, 122410),
        21 => (991709, 128498),
        22 => (990902, 134580),
        23 => (990058, 140658),
        24 => (989176, 146730),
        25 => (988257, 152797),
        26 => (987301, 158858),
        27 => (986308, 164913),
        28 => (985277, 170961),
        29 => (984210, 177004),
        30 => (983105, 183039),
        31 => (981963, 189068),
        32 => (980785, 195090),
        33 => (979569, 201104),
        34 => (978317, 207111),
        35 => (977028, 213110),
        36 => (975702, 219101),
        37 => (974339, 225083),
        38 => (972939, 231058),
        39 => (971503, 237023),
        40 => (970031, 242980),
        41 => (968522, 248927),
        42 => (966976, 254865),
        43 => (965394, 260794),
        44 => (963776, 266712),
        45 => (962121, 272621),
        46 => (960430, 278519),
        47 => (958703, 284407),
        48 => (956940, 290284),
        49 => (955141, 296150),
        50 => (953306, 302005),
        51 => (951435, 307849),
        52 => (949528, 313681),
        53 => (947585, 319502),
        54 => (945607, 325310),
        55 => (943593, 331106),
        56 => (941544, 336889),
        57 => (939459, 342660),
        58 => (937339, 348418),
        59 => (935183, 354163),
        60 => (932992, 359895),
        61 => (930766, 365612),
        62 => (928506, 371317),
        63 => (926210, 377007),
        64 => (923879, 382683),
        65 => (921514, 388345),
        66 => (919113, 393992),
        67 => (916679, 399624),
        68 => (914209, 405241),
        69 => (911706, 410843),
        70 => (909167, 416429),
        71 => (906595, 422000),
        72 => (903989, 427555),
        73 => (901348, 433093),
        74 => (898674, 438616),
        75 => (895966, 444122),
        76 => (893224, 449611),
        77 => (890448, 455083),
        78 => (887639, 460538),
        79 => (884797, 465976),
        80 => (881921, 471396),
        81 => (879012, 476799),
        82 => (876070, 482183),
        83 => (873094, 487550),
        84 => (870086, 492898),
        85 => (867046, 498227),
        86 => (863972, 503538),
        87 => (860866, 508830),
        88 => (857728, 514102),
        89 => (854557, 519355),
        90 => (851355, 524589),
        91 => (848120, 529803),
        92 => (844853, 534997),
        93 => (841554, 540171),
        94 => (838224, 545324),
        95 => (834862, 550457),
        96 => (831469, 555570),
        97 => (828045, 560661),
        98 => (824589, 565731),
        99 => (821102, 570780),
        100 => (817584, 575808),
        101 => (814036, 580813),
        102 => (810457, 585797),
        103 => (806847, 590759),
        104 => (803207, 595699),
        105 => (799537, 600616),
        106 => (795836, 605511),
        107 => (792106, 610382),
        108 => (788346, 615231),
        109 => (784556, 620057),
        110 => (780737, 624859),
        111 => (776888, 629638),
        112 => (773010, 634393),
        113 => (769103, 639124),
        114 => (765167, 643831),
        115 => (761202, 648514),
        116 => (757208, 653172),
        117 => (753186, 657806),
        118 => (749136, 662415),
        119 => (745057, 666999),
        120 => (740951, 671558),
        121 => (736816, 676092),
        122 => (732654, 680600),
        123 => (728464, 685083),
        124 => (724247, 689540),
        125 => (720002, 693971),
        126 => (715730, 698376),
        127 => (711432, 702754),
        128 => (707106, 707106),
        129 => (702754, 711432),
        130 => (698376, 715730),
        131 => (693971, 720002),
        132 => (689540, 724247),
        133 => (685083, 728464),
        134 => (680600, 732654),
        135 => (676092, 736816),
        136 => (671558, 740951),
        137 => (666999, 745057),
        138 => (662415, 749136),
        139 => (657806, 753186),
        140 => (653172, 757208),
        141 => (648514, 761202),
        142 => (643831, 765167),
        143 => (639124, 769103),
        144 => (634393, 773010),
        145 => (629638, 776888),
        146 => (624859, 780737),
        147 => (620057, 784556),
        148 => (615231, 788346),
        149 => (610382, 792106),
        150 => (605511, 795836),
        151 => (600616, 799537),
        152 => (595699, 803207),
        153 => (590759, 806847),
        154 => (585797, 810457),
        155 => (580813, 814036),
        156 => (575808, 817584),
        157 => (570780, 821102),
        158 => (565731, 824589),
        159 => (560661, 828045),
        160 => (555570, 831469),
        161 => (550457, 834862),
        162 => (545324, 838224),
        163 => (540171, 841554),
        164 => (534997, 844853),
        165 => (529803, 848120),
        166 => (524589, 851355),
        167 => (519355, 854557),
        168 => (514102, 857728),
        169 => (508830, 860866),
        170 => (503538, 863972),
        171 => (498227, 867046),
        172 => (492898, 870086),
        173 => (487550, 873094),
        174 => (482183, 876070),
        175 => (476799, 879012),
        176 => (471396, 881921),
        177 => (465976, 884797),
        178 => (460538, 887639),
        179 => (455083, 890448),
        180 => (449611, 893224),
        181 => (444122, 895966),
        182 => (438616, 898674),
        183 => (433093, 901348),
        184 => (427555, 903989),
        185 => (422000, 906595),
        186 => (416429, 909167),
        187 => (410843, 911706),
        188 => (405241, 914209),
        189 => (399624, 916679),
        190 => (393992, 919113),
        191 => (388345, 921514),
        192 => (382683, 923879),
        193 => (377007, 926210),
        194 => (371317, 928506),
        195 => (365612, 930766),
        196 => (359895, 932992),
        197 => (354163, 935183),
        198 => (348418, 937339),
        199 => (342660, 939459),
        200 => (336889, 941544),
        201 => (331106, 943593),
        202 => (325310, 945607),
        203 => (319502, 947585),
        204 => (313681, 949528),
        205 => (307849, 951435),
        206 => (302005, 953306),
        207 => (296150, 955141),
        208 => (290284, 956940),
        209 => (284407, 958703),
        210 => (278519, 960430),
        211 => (272621, 962121),
        212 => (266712, 963776),
        213 => (260794, 965394),
        214 => (254865, 966976),
        215 => (248927, 968522),
        216 => (242980, 970031),
        217 => (237023, 971503),
        218 => (231058, 972939),
        219 => (225083, 974339),
        220 => (219101, 975702),
        221 => (213110, 977028),
        222 => (207111, 978317),
        223 => (201104, 979569),
        224 => (195090, 980785),
        225 => (189068, 981963),
        226 => (183039, 983105),
        227 => (177004, 984210),
        228 => (170961, 985277),
        229 => (164913, 986308),
        230 => (158858, 987301),
        231 => (152797, 988257),
        232 => (146730, 989176),
        233 => (140658, 990058),
        234 => (134580, 990902),
        235 => (128498, 991709),
        236 => (122410, 992479),
        237 => (116318, 993211),
        238 => (110222, 993906),
        239 => (104121, 994564),
        240 => (98017, 995184),
        241 => (91908, 995767),
        242 => (85797, 996312),
        243 => (79682, 996820),
        244 => (73564, 997290),
        245 => (67443, 997723),
        246 => (61320, 998118),
        247 => (55195, 998475),
        248 => (49067, 998795),
        249 => (42938, 999077),
        250 => (36807, 999322),
        251 => (30674, 999529),
        252 => (24541, 999698),
        253 => (18406, 999830),
        254 => (12271, 999924),
        _ => (6135, 999981),
    }
}

/// Scaling a vector of length at most one by a radius under `POS_MAX`,
/// rounding toward zero, lands strictly inside the disc of radius `POS_MAX`.
proof fn lemma_scaled_inside(r: int, c: int, s: int, a: int, b: int)
    requires
        0 <= r < POS_MAX,
        0 <= c,
        0 <= s,
        c * c + s * s <= DIR_UNIT * DIR_UNIT,
        a == r * c / (DIR_UNIT as int),
        b == r * s / (DIR_UNIT as int),
    ensures
        0 <= a <= r,
        0 <= b <= r,
        a * a + b * b < POS_MAX * POS_MAX,
{
    let u = DIR_UNIT as int;
    assert(0 <= r * c && 0 <= r * s) by (nonlinear_arith)
        requires 0 <= r, 0 <= c, 0 <= s;
    lemma_fundamental_div_mod(r * c, u);
    lemma_fundamental_div_mod(r * s, u);
    lemma_mod_pos_bound(r * c, u);
    lemma_mod_pos_bound(r * s, u);
    lemma_div_pos_is_pos(r * c, u);
    lemma_div_pos_is_pos(r * s, u);
    let ca = a * u;
    let cb = b * u;
    assert(ca <= r * c && cb <= r * s);
    assert(c <= u && s <= u) by (nonlinear_arith)
        requires c * c + s * s <= u * u, 0 <= c, 0 <= s, u > 0;
    assert(a <= r && b <= r) by (nonlinear_arith)
        requires a * u <= r * c, b * u <= r * s, c <= u, s <= u, 0 <= r, u > 0, 0 <= a, 0 <= b;
    assert(ca * ca <= (r * c) * (r * c)) by (nonlinear_arith)
        requires 0 <= ca <= r * c;
    assert(cb * cb <= (r * s) * (r * s)) by (nonlinear_arith)
        requires 0 <= cb <= r * s;
    let (aa, bb, rr, cc, ss, uu) = (a * a, b * b, r * r, c * c, s * s, u * u);
    assert(ca * ca == aa * uu && cb * cb == bb * uu) by (nonlinear_arith)
        requires ca == a * u, cb == b * u, aa == a * a, bb == b * b, uu == u * u;
    assert((r * c) * (r * c) == rr * cc && (r * s) * (r * s) == rr * ss) by (nonlinear_arith)
        requires rr == r * r, cc == c * c, ss == s * s;
    assert(rr * cc + rr * ss <= rr * uu) by (nonlinear_arith)
        requires cc + ss <= uu, 0 <= rr;
    assert((aa + bb) * uu == aa * uu + bb * uu) by (nonlinear_arith);
    assert((aa + bb) * uu <= rr * uu);
    assert(aa + bb <= rr) by (nonlinear_arith)
        requires (aa + bb) * uu <= rr * uu, uu > 0;
    assert(r * r < POS_MAX * POS_MAX) by (nonlinear_arith)
        requires 0 <= r < POS_MAX;
}

/// The kick that a direction `dir`, a distance `dist` and a velocity
/// `(vx, vy)` make; its offset lies strictly inside the disc of radius
/// `POS_MAX`.
pub fn kick_from_draws(dir: i64, dist: i64, vx: i64, vy: i64) -> (k: Kick)
    requires
        0 <= dir < NUM_DIRECTIONS,
        0 <= dist < POS_MAX,
    ensures
        k == spec_kick(dir as int, dist as int, vx, vy),
        norm_sq(k.offset) < POS_MAX * POS_MAX,
{
    let (c, s) = quarter_direction(dir % QUARTER);
    assert(0 <= dist * c <= POS_MAX * DIR_UNIT && 0 <= dist * s <= POS_MAX * DIR_UNIT) by (nonlinear_arith)
        requires 0 <= dist < POS_MAX, 0 <= c <= DIR_UNIT, 0 <= s <= DIR_UNIT;
    let a = dist * c / DIR_UNIT;
    let b = dist * s / DIR_UNIT;
    proof { lemma_scaled_inside(dist as int, c as int, s as int, a as int, b as int); }
    // turn the first-quarter offset by the drawn number of quarter turns
    let quarter = dir / QUARTER;
    let offset = if quarter == 0 {
        Point { x: a, y: b }
    } else if quarter == 1 {
        Point { x: -b, y: a }
    } else if quarter == 2 {
        Point { x: -a, y: -b }
    } else {
        Point { x: b, y: -a }
    };
    assert((-a) * (-a) == a * a && (-b) * (-b) == b * b) by (nonlinear_arith);
    assert(norm_sq(offset) == a * a + b * b);
    Kick { offset, velocity: Point { x: vx, y: vy } }
}

/// Draws one kick: a direction out of `NUM_DIRECTIONS`, a distance in
/// `[0, POS_MAX)` and each velocity component in `[VEL_MIN, VEL_MAX)`, all
/// uniform, and makes the kick from them.
pub fn draw_kick(rng: &mut ThreadRng) -> (k: Kick)
    ensures
        kick_ok(k),
        drawn(k),
{
    let dir = draw_in(rng, 0, NUM_DIRECTIONS);
    let dist = draw_in(rng, 0, POS_MAX);
    let vx = draw_in(rng, VEL_MIN, VEL_MAX);
    let vy = draw_in(rng, VEL_MIN, VEL_MAX);
    let k = kick_from_draws(dir, dist, vx, vy);
    assert(spec_kick(dir as int, dist as int, vx, vy) == k);
    k
}

proof fn lemma_offset_small(k: Kick)
    requires
        kick_ok(k),
    ensures
        -POS_MAX < k.offset.x < POS_MAX,
        -POS_MAX < k.offset.y < POS_MAX,
{
    let x = k.offset.x as int;
    let y = k.offset.y as int;
    assert(-POS_MAX < x < POS_MAX) by (nonlinear_arith)
        requires x * x + y * y < POS_MAX * POS_MAX;
    assert(-POS_MAX < y < POS_MAX) by (nonlinear_arith)
        requires x * x + y * y < POS_MAX * POS_MAX;
}

impl World {
    /// Throws ball `i` to `cursor` moved by `kicks[i]`'s offset, with
    /// `kicks[i]`'s velocity. The walls stay as they are.
    pub fn apply_kicks(&mut self, cursor: Point, kicks: &Vec<Kick>)
        requires
            in_world(cursor),
            kicks@.len() == NUM_BALLS,
            forall|i: int| 0 <= i < kicks@.len() ==> kick_ok(#[trigger] kicks@[i]),
        ensures
            final(self).spec_walls() == old(self).spec_walls(),
            final(self).spec_balls().len() == NUM_BALLS,
            forall|i: int| 0 <= i < NUM_BALLS ==>
                #[trigger] final(self).spec_balls()[i] == kicked(cursor, kicks@[i]),
    {
        let mut balls: Vec<Ball> = Vec::new();
        let mut i: usize = 0;
        while i < NUM_BALLS
            invariant
                i <= NUM_BALLS,
                in_world(cursor),
                kicks@.len() == NUM_BALLS,
                forall|j: int| 0 <= j < kicks@.len() ==> kick_ok(#[trigger] kicks@[j]),
                balls@.len() == i,
                forall|j: int| 0 <= j < i ==> #[trigger] balls@[j] == kicked(cursor, kicks@[j]),
            decreases NUM_BALLS - i,
        {
            let k = kicks[i];
            proof { lemma_offset_small(k); }
            balls.push(Ball {
                position: Point { x: cursor.x + k.offset.x, y: cursor.y + k.offset.y },
                velocity: k.velocity,
            });
            i = i + 1;
        }
        self.set_balls(balls);
    }
}

/// While the left button is held, throws every ball around the cursor by a
/// fresh kick from `draw_kick`: to less than `POS_MAX` from it, with a
/// velocity in bounds. While
/// it is released, the balls are left alone. The walls never change.
pub fn update_balls(cursor: &MyWorldCoords, left_pressed: bool, world: &mut World)
    requires
        in_world(cursor.0),
    ensures
        final(world).spec_walls() == old(world).spec_walls(),
        final(world).spec_balls().len() == NUM_BALLS,
        left_pressed ==> forall|i: int| 0 <= i < NUM_BALLS ==>
            thrown(#[trigger] final(world).spec_balls()[i], cursor.0),
        left_pressed ==> forall|i: int| 0 <= i < NUM_BALLS ==>
            scattered(#[trigger] final(world).spec_balls()[i], cursor.0),
        !left_pressed ==> final(world).spec_balls() == old(world).spec_balls(),
{
    let n = world.ball_count();
    if left_pressed {
        let mut rng = rand::thread_rng();
        let mut kicks: Vec<Kick> = Vec::new();
        let mut i: usize = 0;
        while i < n
            invariant
                n == NUM_BALLS,
                i <= n,
                kicks@.len() == i,
                forall|j: int| 0 <= j < i ==> kick_ok(#[trigger] kicks@[j]),
                forall|j: int| 0 <= j < i ==> drawn(#[trigger] kicks@[j]),
            decreases n - i,
        {
            kicks.push(draw_kick(&mut rng));
            i = i + 1;
        }
        world.apply_kicks(cursor.0, &kicks);
        assert forall|i: int| 0 <= i < NUM_BALLS implies
            scattered(#[trigger] final(world).spec_balls()[i], cursor.0) by {
            let k = kicks@[i];
            lemma_offset_small(k);
        }
        assert forall|i: int| 0 <= i < NUM_BALLS implies
            thrown(#[trigger] final(world).spec_balls()[i], cursor.0) by {
            let k = kicks@[i];
            assert(drawn(k));
            assert(kicked(cursor.0, k) == final(world).spec_balls()[i]);
        }
    }
}

} // verus!
