use vstd::prelude::*;

verus! {

/// Arcsine samples: slot `i` holds `asin((i - 1000) / 1000)` in
/// thousandths, rounded to the nearest integer.
pub(crate) fn arcsine_samples_0() -> [i16; 501] {
    [
        -1571, -1526, -1508, -1493, -1481, -1471, -1461, -1452, -1444, -1437, -1429, -1422, -1416, -1409, -1403, -1397,
        -1392, -1386, -1381, -1376, -1370, -1365, -1361, -1356, -1351, -1347, -1342, -1338, -1334, -1329, -1325, -1321,
        -1317, -1313, -1309, -1305, -1302, -1298, -1294, -1291, -1287, -1283, -1280, -1276, -1273, -1270, -1266, -1263,
        -1260, -1256, -1253, -1250, -1247, -1244, -1241, -1238, -1235, -1232, -1229, -1226, -1223, -1220, -1217, -1214,
        -1211, -1208, -1205, -1203, -1200, -1197, -1194, -1192, -1189, -1186, -1184, -1181, -1178, -1176, -1173, -1171,
        -1168, -1166, -1163, -1160, -1158, -1156, -1153, -1151, -1148, -1146, -1143, -1141, -1138, -1136, -1134, -1131,
        -1129, -1127, -1124, -1122, -1120, -1117, -1115, -1113, -1111, -1108, -1106, -1104, -1102, -1100, -1097, -1095,
        -1093, -1091, -1089, -1086, -1084, -1082, -1080, -1078, -1076, -1074, -1072, -1070, -1068, -1065, -1063, -1061,
        -1059, -1057, -1055, -1053, -1051, -1049, -1047, -1045, -1043, -1041, -1039, -1037, -1035, -1033, -1031, -1029,
        -1027, -1026, -1024, -1022, -1020, -1018, -1016, -1014, -1012, -1010, -1008, -1007, -1005, -1003, -1001, -999,
        -997, -995, -994, -992, -990, -988, -986, -985, -983, -981, -979, -977, -976, -974, -972, -970,
        -968, -967, -965, -963, -961, -960, -958, -956, -954, -953, -951, -949, -948, -946, -944, -942,
        -941, -939, -937, -936, -934, -932, -931, -929, -927, -926, -924, -922, -921, -919, -917, -916,
        -914, -912, -911, -909, -908, -906, -904, -903, -901, -899, -898, -896, -895, -893, -891, -890,
        -888, -887, -885, -884, -882, -880, -879, -877, -876, -874, -873, -871, -869, -868, -866, -865,
        -863, -862, -860, -859, -857, -856, -854, -853, -851, -850, -848, -847, -845, -844, -842, -841,
        -839, -838, -836, -835, -833, -832, -830, -829, -827, -826, -824, -823, -821, -820, -818, -817,
        -815, -814, -812, -811, -810, -808, -807, -805, -804, -802, -801, -799, -798, -797, -795, -794,
        -792, -791, -789, -788, -787, -785, -784, -782, -781, -780, -778, -777, -775, -774, -773, -771,
        -770, -768, -767, -766, -764, -763, -761, -760, -759, -757, -756, -755, -753, -752, -750, -749,
        -748, -746, -745, -744, -742, -741, -740, -738, -737, -736, -734, -733, -732, -730, -729, -727,
        -726, -725, -723, -722, -721, -719, -718, -717, -716, -714, -713, -712, -710, -709, -708, -706,
        -705, -704, -702, -701, -700, -698, -697, -696, -694, -693, -692, -691, -689, -688, -687, -685,
        -684, -683, -682, -680, -679, -678, -676, -675, -674, -673, -671, -670, -669, -667, -666, -665,
        -664, -662, -661, -660, -659, -657, -656, -655, -654, -652, -651, -650, -649, -647, -646, -645,
        -644, -642, -641, -640, -639, -637, -636, -635, -634, -632, -631, -630, -629, -627, -626, -625,
        -624, -622, -621, -620, -619, -618, -616, -615, -614, -613, -611, -610, -609, -608, -607, -605,
        -604, -603, -602, -600, -599, -598, -597, -596, -594, -593, -592, -591, -590, -588, -587, -586,
        -585, -584, -582, -581, -580, -579, -578, -576, -575, -574, -573, -572, -570, -569, -568, -567,
        -566, -565, -563, -562, -561, -560, -559, -557, -556, -555, -554, -553, -552, -550, -549, -548,
        -547, -546, -545, -543, -542, -541, -540, -539, -538, -536, -535, -534, -533, -532, -531, -529,
        -528, -527, -526, -525, -524,
    ]
}

/// Continuation of `arcsine_samples_0`.
pub(crate) fn arcsine_samples_1() -> [i16; 500] {
    [
        -522, -521, -520, -519, -518, -517, -516, -514, -513, -512, -511, -510, -509, -508, -506, -505,
        -504, -503, -502, -501, -500, -498, -497, -496, -495, -494, -493, -492, -490, -489, -488, -487,
        -486, -485, -484, -483, -481, -480, -479, -478, -477, -476, -475, -473, -472, -471, -470, -469,
        -468, -467, -466, -465, -463, -462, -461, -460, -459, -458, -457, -456, -454, -453, -452, -451,
        -450, -449, -448, -447, -446, -444, -443, -442, -441, -440, -439, -438, -437, -436, -435, -433,
        -432, -431, -430, -429, -428, -427, -426, -425, -424, -422, -421, -420, -419, -418, -417, -416,
        -415, -414, -413, -412, -410, -409, -408, -407, -406, -405, -404, -403, -402, -401, -400, -398,
        -397, -396, -395, -394, -393, -392, -391, -390, -389, -388, -387, -385, -384, -383, -382, -381,
        -380, -379, -378, -377, -376, -375, -374, -373, -371, -370, -369, -368, -367, -366, -365, -364,
        -363, -362, -361, -360, -359, -358, -357, -355, -354, -353, -352, -351, -350, -349, -348, -347,
        -346, -345, -344, -343, -342, -341, -339, -338, -337, -336, -335, -334, -333, -332, -331, -330,
        -329, -328, -327, -326, -325, -324, -323, -322, -320, -319, -318, -317, -316, -315, -314, -313,
        -312, -311, -310, -309, -308, -307, -306, -305, -304, -303, -302, -301, -299, -298, -297, -296,
        -295, -294, -293, -292, -291, -290, -289, -288, -287, -286, -285, -284, -283, -282, -281, -280,
        -279, -278, -277, -275, -274, -273, -272, -271, -270, -269, -268, -267, -266, -265, -264, -263,
        -262, -261, -260, -259, -258, -257, -256, -255, -254, -253, -252, -251, -250, -249, -248, -246,
        -245, -244, -243, -242, -241, -240, -239, -238, -237, -236, -235, -234, -233, -232, -231, -230,
        -229, -228, -227, -226, -225, -224, -223, -222, -221, -220, -219, -218, -217, -216, -215, -214,
        -213, -212, -211, -210, -209, -207, -206, -205, -204, -203, -202, -201, -200, -199, -198, -197,
        -196, -195, -194, -193, -192, -191, -190, -189, -188, -187, -186, -185, -184, -183, -182, -181,
        -180, -179, -178, -177, -176, -175, -174, -173, -172, -171, -170, -169, -168, -167, -166, -165,
        -164, -163, -162, -161, -160, -159, -158, -157, -156, -155, -154, -153, -152, -151, -150, -149,
        -148, -147, -146, -145, -143, -142, -141, -140, -139, -138, -137, -136, -135, -134, -133, -132,
        -131, -130, -129, -128, -127, -126, -125, -124, -123, -122, -121, -120, -119, -118, -117, -116,
        -115, -114, -113, -112, -111, -110, -109, -108, -107, -106, -105, -104, -103, -102, -101, -100,
        -99, -98, -97, -96, -95, -94, -93, -92, -91, -90, -89, -88, -87, -86, -85, -84,
        -83, -82, -81, -80, -79, -78, -77, -76, -75, -74, -73, -72, -71, -70, -69, -68,
        -67, -66, -65, -64, -63, -62, -61, -60, -59, -58, -57, -56, -55, -54, -53, -52,
        -51, -50, -49, -48, -47, -46, -45, -44, -43, -42, -41, -40, -39, -38, -37, -36,
        -35, -34, -33, -32, -31, -30, -29, -28, -27, -26, -25, -24, -23, -22, -21, -20,
        -19, -18, -17, -16, -15, -14, -13, -12, -11, -10, -9, -8, -7, -6, -5, -4,
        -3, -2, -1, 0,
    ]
}

/// Continuation of `arcsine_samples_0`.
pub(crate) fn arcsine_samples_2() -> (samples: [i16; 500])
    ensures
        samples@[499] == 524,
{
    [
        1, 2, 3, 4, 5, 6, 7, 8, 9, 10, 11, 12, 13, 14, 15, 16,
        17, 18, 19, 20, 21, 22, 23, 24, 25, 26, 27, 28, 29, 30, 31, 32,
        33, 34, 35, 36, 37, 38, 39, 40, 41, 42, 43, 44, 45, 46, 47, 48,
        49, 50, 51, 52, 53, 54, 55, 56, 57, 58, 59, 60, 61, 62, 63, 64,
        65, 66, 67, 68, 69, 70, 71, 72, 73, 74, 75, 76, 77, 78, 79, 80,
        81, 82, 83, 84, 85, 86, 87, 88, 89, 90, 91, 92, 93, 94, 95, 96,
        97, 98, 99, 100, 101, 102, 103, 104, 105, 106, 107, 108, 109, 110, 111, 112,
        113, 114, 115, 116, 117, 118, 119, 120, 121, 122, 123, 124, 125, 126, 127, 128,
        129, 130, 131, 132, 133, 134, 135, 136, 137, 138, 139, 140, 141, 142, 143, 145,
        146, 147, 148, 149, 150, 151, 152, 153, 154, 155, 156, 157, 158, 159, 160, 161,
        162, 163, 164, 165, 166, 167, 168, 169, 170, 171, 172, 173, 174, 175, 176, 177,
        178, 179, 180, 181, 182, 183, 184, 185, 186, 187, 188, 189, 190, 191, 192, 193,
        194, 195, 196, 197, 198, 199, 200, 201, 202, 203, 204, 205, 206, 207, 209, 210,
        211, 212, 213, 214, 215, 216, 217, 218, 219, 220, 221, 222, 223, 224, 225, 226,
        227, 228, 229, 230, 231, 232, 233, 234, 235, 236, 237, 238, 239, 240, 241, 242,
        243, 244, 245, 246, 248, 249, 250, 251, 252, 253, 254, 255, 256, 257, 258, 259,
        260, 261, 262, 263, 264, 265, 266, 267, 268, 269, 270, 271, 272, 273, 274, 275,
        277, 278, 279, 280, 281, 282, 283, 284, 285, 286, 287, 288, 289, 290, 291, 292,
        293, 294, 295, 296, 297, 298, 299, 301, 302, 303, 304, 305, 306, 307, 308, 309,
        310, 311, 312, 313, 314, 315, 316, 317, 318, 319, 320, 322, 323, 324, 325, 326,
        327, 328, 329, 330, 331, 332, 333, 334, 335, 336, 337, 338, 339, 341, 342, 343,
        344, 345, 346, 347, 348, 349, 350, 351, 352, 353, 354, 355, 357, 358, 359, 360,
        361, 362, 363, 364, 365, 366, 367, 368, 369, 370, 371, 373, 374, 375, 376, 377,
        378, 379, 380, 381, 382, 383, 384, 385, 387, 388, 389, 390, 391, 392, 393, 394,
        395, 396, 397, 398, 400, 401, 402, 403, 404, 405, 406, 407, 408, 409, 410, 412,
        413, 414, 415, 416, 417, 418, 419, 420, 421, 422, 424, 425, 426, 427, 428, 429,
        430, 431, 432, 433, 435, 436, 437, 438, 439, 440, 441, 442, 443, 444, 446, 447,
        448, 449, 450, 451, 452, 453, 454, 456, 457, 458, 459, 460, 461, 462, 463, 465,
        466, 467, 468, 469, 470, 471, 472, 473, 475, 476, 477, 478, 479, 480, 481, 483,
        484, 485, 486, 487, 488, 489, 490, 492, 493, 494, 495, 496, 497, 498, 500, 501,
        502, 503, 504, 505, 506, 508, 509, 510, 511, 512, 513, 514, 516, 517, 518, 519,
        520, 521, 522, 524,
    ]
}

/// Continuation of `arcsine_samples_0`.
pub(crate) fn arcsine_samples_3() -> [i16; 500] {
    [
        525, 526, 527, 528, 529, 531, 532, 533, 534, 535, 536, 538, 539, 540, 541, 542,
        543, 545, 546, 547, 548, 549, 550, 552, 553, 554, 555, 556, 557, 559, 560, 561,
        562, 563, 565, 566, 567, 568, 569, 570, 572, 573, 574, 575, 576, 578, 579, 580,
        581, 582, 584, 585, 586, 587, 588, 590, 591, 592, 593, 594, 596, 597, 598, 599,
        600, 602, 603, 604, 605, 607, 608, 609, 610, 611, 613, 614, 615, 616, 618, 619,
        620, 621, 622, 624, 625, 626, 627, 629, 630, 631, 632, 634, 635, 636, 637, 639,
        640, 641, 642, 644, 645, 646, 647, 649, 650, 651, 652, 654, 655, 656, 657, 659,
        660, 661, 662, 664, 665, 666, 667, 669, 670, 671, 673, 674, 675, 676, 678, 679,
        680, 682, 683, 684, 685, 687, 688, 689, 691, 692, 693, 694, 696, 697, 698, 700,
        701, 702, 704, 705, 706, 708, 709, 710, 712, 713, 714, 716, 717, 718, 719, 721,
        722, 723, 725, 726, 727, 729, 730, 732, 733, 734, 736, 737, 738, 740, 741, 742,
        744, 745, 746, 748, 749, 750, 752, 753, 755, 756, 757, 759, 760, 761, 763, 764,
        766, 767, 768, 770, 771, 773, 774, 775, 777, 778, 780, 781, 782, 784, 785, 787,
        788, 789, 791, 792, 794, 795, 797, 798, 799, 801, 802, 804, 805, 807, 808, 810,
        811, 812, 814, 815, 817, 818, 820, 821, 823, 824, 826, 827, 829, 830, 832, 833,
        835, 836, 838, 839, 841, 842, 844, 845, 847, 848, 850, 851, 853, 854, 856, 857,
        859, 860, 862, 863, 865, 866, 868, 869, 871, 873, 874, 876, 877, 879, 880, 882,
        884, 885, 887, 888, 890, 891, 893, 895, 896, 898, 899, 901, 903, 904, 906, 908,
        909, 911, 912, 914, 916, 917, 919, 921, 922, 924, 926, 927, 929, 931, 932, 934,
        936, 937, 939, 941, 942, 944, 946, 948, 949, 951, 953, 954, 956, 958, 960, 961,
        963, 965, 967, 968, 970, 972, 974, 976, 977, 979, 981, 983, 985, 986, 988, 990,
        992, 994, 995, 997, 999, 1001, 1003, 1005, 1007, 1008, 1010, 1012, 1014, 1016, 1018, 1020,
        1022, 1024, 1026, 1027, 1029, 1031, 1033, 1035, 1037, 1039, 1041, 1043, 1045, 1047, 1049, 1051,
        1053, 1055, 1057, 1059, 1061, 1063, 1065, 1068, 1070, 1072, 1074, 1076, 1078, 1080, 1082, 1084,
        1086, 1089, 1091, 1093, 1095, 1097, 1100, 1102, 1104, 1106, 1108, 1111, 1113, 1115, 1117, 1120,
        1122, 1124, 1127, 1129, 1131, 1134, 1136, 1138, 1141, 1143, 1146, 1148, 1151, 1153, 1156, 1158,
        1160, 1163, 1166, 1168, 1171, 1173, 1176, 1178, 1181, 1184, 1186, 1189, 1192, 1194, 1197, 1200,
        1203, 1205, 1208, 1211, 1214, 1217, 1220, 1223, 1226, 1229, 1232, 1235, 1238, 1241, 1244, 1247,
        1250, 1253, 1256, 1260, 1263, 1266, 1270, 1273, 1276, 1280, 1283, 1287, 1291, 1294, 1298, 1302,
        1305, 1309, 1313, 1317, 1321, 1325, 1329, 1334, 1338, 1342, 1347, 1351, 1356, 1361, 1365, 1370,
        1376, 1381, 1386, 1392, 1397, 1403, 1409, 1416, 1422, 1429, 1437, 1444, 1452, 1461, 1471, 1481,
        1493, 1508, 1526, 1571,
    ]
}

} // verus!
