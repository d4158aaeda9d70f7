use vstd::prelude::*;

verus! {

/// Arctangent samples at ratio step `1`: slot `i` holds `atan(i / 1000)`
/// in thousandths, rounded to the nearest integer. These cover the
/// nonnegative half of the ratio range; the table for the full range is
/// assembled by mirroring them through the origin.
pub(crate) fn arctangent_samples_thousandths_0() -> (samples: [u16; 1334])
    ensures
        samples@[1000] == 785,
{
    [
        0, 1, 2, 3, 4, 5, 6, 7, 8, 9, 10, 11, 12, 13, 14, 15,
        16, 17, 18, 19, 20, 21, 22, 23, 24, 25, 26, 27, 28, 29, 30, 31,
        32, 33, 34, 35, 36, 37, 38, 39, 40, 41, 42, 43, 44, 45, 46, 47,
        48, 49, 50, 51, 52, 53, 54, 55, 56, 57, 58, 59, 60, 61, 62, 63,
        64, 65, 66, 67, 68, 69, 70, 71, 72, 73, 74, 75, 76, 77, 78, 79,
        80, 81, 82, 83, 84, 85, 86, 87, 88, 89, 90, 91, 92, 93, 94, 95,
        96, 97, 98, 99, 100, 101, 102, 103, 104, 105, 106, 107, 108, 109, 110, 111,
        112, 113, 114, 114, 115, 116, 117, 118, 119, 120, 121, 122, 123, 124, 125, 126,
        127, 128, 129, 130, 131, 132, 133, 134, 135, 136, 137, 138, 139, 140, 141, 142,
        143, 144, 145, 146, 147, 148, 149, 150, 151, 152, 153, 154, 155, 156, 157, 158,
        159, 160, 161, 162, 163, 164, 164, 165, 166, 167, 168, 169, 170, 171, 172, 173,
        174, 175, 176, 177, 178, 179, 180, 181, 182, 183, 184, 185, 186, 187, 188, 189,
        190, 191, 192, 193, 194, 195, 195, 196, 197, 198, 199, 200, 201, 202, 203, 204,
        205, 206, 207, 208, 209, 210, 211, 212, 213, 214, 215, 216, 217, 218, 218, 219,
        220, 221, 222, 223, 224, 225, 226, 227, 228, 229, 230, 231, 232, 233, 234, 235,
        236, 236, 237, 238, 239, 240, 241, 242, 243, 244, 245, 246, 247, 248, 249, 250,
        251, 252, 252, 253, 254, 255, 256, 257, 258, 259, 260, 261, 262, 263, 264, 265,
        266, 267, 267, 268, 269, 270, 271, 272, 273, 274, 275, 276, 277, 278, 279, 279,
        280, 281, 282, 283, 284, 285, 286, 287, 288, 289, 290, 291, 291, 292, 293, 294,
        295, 296, 297, 298, 299, 300, 301, 302, 302, 303, 304, 305, 306, 307, 308, 309,
        310, 311, 312, 312, 313, 314, 315, 316, 317, 318, 319, 320, 321, 321, 322, 323,
        324, 325, 326, 327, 328, 329, 330, 330, 331, 332, 333, 334, 335, 336, 337, 338,
        338, 339, 340, 341, 342, 343, 344, 345, 346, 346, 347, 348, 349, 350, 351, 352,
        353, 354, 354, 355, 356, 357, 358, 359, 360, 361, 361, 362, 363, 364, 365, 366,
        367, 368, 368, 369, 370, 371, 372, 373, 374, 374, 375, 376, 377, 378, 379, 380,
        381, 381, 382, 383, 384, 385, 386, 387, 387, 388, 389, 390, 391, 392, 393, 393,
        394, 395, 396, 397, 398, 398, 399, 400, 401, 402, 403, 404, 404, 405, 406, 407,
        408, 409, 409, 410, 411, 412, 413, 414, 415, 415, 416, 417, 418, 419, 420, 420,
        421, 422, 423, 424, 425, 425, 426, 427, 428, 429, 429, 430, 431, 432, 433, 434,
        434, 435, 436, 437, 438, 439, 439, 440, 441, 442, 443, 443, 444, 445, 446, 447,
        448, 448, 449, 450, 451, 452, 452, 453, 454, 455, 456, 456, 457, 458, 459, 460,
        460, 461, 462, 463, 464, 464, 465, 466, 467, 468, 468, 469, 470, 471, 472, 472,
        473, 474, 475, 476, 476, 477, 478, 479, 480, 480, 481, 482, 483, 483, 484, 485,
        486, 487, 487, 488, 489, 490, 490, 491, 492, 493, 494, 494, 495, 496, 497, 497,
        498, 499, 500, 501, 501, 502, 503, 504, 504, 505, 506, 507, 507, 508, 509, 510,
        510, 511, 512, 513, 514, 514, 515, 516, 517, 517, 518, 519, 520, 520, 521, 522,
        523, 523, 524, 525, 526, 526, 527, 528, 529, 529, 530, 531, 532, 532, 533, 534,
        535, 535, 536, 537, 537, 538, 539, 540, 540, 541, 542, 543, 543, 544, 545, 546,
        546, 547, 548, 548, 549, 550, 551, 551, 552, 553, 554, 554, 555, 556, 556, 557,
        558, 559, 559, 560, 561, 561, 562, 563, 564, 564, 565, 566, 566, 567, 568, 569,
        569, 570, 571, 571, 572, 573, 574, 574, 575, 576, 576, 577, 578, 578, 579, 580,
        581, 581, 582, 583, 583, 584, 585, 585, 586, 587, 588, 588, 589, 590, 590, 591,
        592, 592, 593, 594, 594, 595, 596, 596, 597, 598, 599, 599, 600, 601, 601, 602,
        603, 603, 604, 605, 605, 606, 607, 607, 608, 609, 609, 610, 611, 611, 612, 613,
        613, 614, 615, 615, 616, 617, 617, 618, 619, 619, 620, 621, 621, 622, 623, 623,
        624, 625, 625, 626, 627, 627, 628, 629, 629, 630, 631, 631, 632, 633, 633, 634,
        634, 635, 636, 636, 637, 638, 638, 639, 640, 640, 641, 642, 642, 643, 644, 644,
        645, 645, 646, 647, 647, 648, 649, 649, 650, 651, 651, 652, 652, 653, 654, 654,
        655, 656, 656, 657, 657, 658, 659, 659, 660, 661, 661, 662, 662, 663, 664, 664,
        665, 666, 666, 667, 667, 668, 669, 669, 670, 670, 671, 672, 672, 673, 674, 674,
        675, 675, 676, 677, 677, 678, 678, 679, 680, 680, 681, 681, 682, 683, 683, 684,
        684, 685, 686, 686, 687, 687, 688, 689, 689, 690, 690, 691, 692, 692, 693, 693,
        694, 695, 695, 696, 696, 697, 697, 698, 699, 699, 700, 700, 701, 702, 702, 703,
        703, 704, 704, 705, 706, 706, 707, 707, 708, 709, 709, 710, 710, 711, 711, 712,
        713, 713, 714, 714, 715, 715, 716, 717, 717, 718, 718, 719, 719, 720, 721, 721,
        722, 722, 723, 723, 724, 724, 725, 726, 726, 727, 727, 728, 728, 729, 729, 730,
        731, 731, 732, 732, 733, 733, 734, 734, 735, 736, 736, 737, 737, 738, 738, 739,
        739, 740, 740, 741, 742, 742, 743, 743, 744, 744, 745, 745, 746, 746, 747, 748,
        748, 749, 749, 750, 750, 751, 751, 752, 752, 753, 753, 754, 754, 755, 756, 756,
        757, 757, 758, 758, 759, 759, 760, 760, 761, 761, 762, 762, 763, 763, 764, 764,
        765, 766, 766, 767, 767, 768, 768, 769, 769, 770, 770, 771, 771, 772, 772, 773,
        773, 774, 774, 775, 775, 776, 776, 777, 777, 778, 778, 779, 779, 780, 780, 781,
        781, 782, 782, 783, 783, 784, 784, 785, 785, 786, 786, 787, 787, 788, 788, 789,
        789, 790, 790, 791, 791, 792, 792, 793, 793, 794, 794, 795, 795, 796, 796, 797,
        797, 798, 798, 799, 799, 800, 800, 801, 801, 802, 802, 803, 803, 804, 804, 805,
        805, 805, 806, 806, 807, 807, 808, 808, 809, 809, 810, 810, 811, 811, 812, 812,
        813, 813, 814, 814, 815, 815, 815, 816, 816, 817, 817, 818, 818, 819, 819, 820,
        820, 821, 821, 822, 822, 822, 823, 823, 824, 824, 825, 825, 826, 826, 827, 827,
        828, 828, 828, 829, 829, 830, 830, 831, 831, 832, 832, 833, 833, 833, 834, 834,
        835, 835, 836, 836, 837, 837, 837, 838, 838, 839, 839, 840, 840, 841, 841, 841,
        842, 842, 843, 843, 844, 844, 845, 845, 845, 846, 846, 847, 847, 848, 848, 849,
        849, 849, 850, 850, 851, 851, 852, 852, 852, 853, 853, 854, 854, 855, 855, 855,
        856, 856, 857, 857, 858, 858, 858, 859, 859, 860, 860, 861, 861, 861, 862, 862,
        863, 863, 864, 864, 864, 865, 865, 866, 866, 867, 867, 867, 868, 868, 869, 869,
        869, 870, 870, 871, 871, 872, 872, 872, 873, 873, 874, 874, 874, 875, 875, 876,
        876, 876, 877, 877, 878, 878, 879, 879, 879, 880, 880, 881, 881, 881, 882, 882,
        883, 883, 883, 884, 884, 885, 885, 885, 886, 886, 887, 887, 887, 888, 888, 889,
        889, 889, 890, 890, 891, 891, 891, 892, 892, 893, 893, 893, 894, 894, 894, 895,
        895, 896, 896, 896, 897, 897, 898, 898, 898, 899, 899, 900, 900, 900, 901, 901,
        901, 902, 902, 903, 903, 903, 904, 904, 905, 905, 905, 906, 906, 906, 907, 907,
        908, 908, 908, 909, 909, 909, 910, 910, 911, 911, 911, 912, 912, 912, 913, 913,
        914, 914, 914, 915, 915, 915, 916, 916, 917, 917, 917, 918, 918, 918, 919, 919,
        920, 920, 920, 921, 921, 921, 922, 922, 922, 923, 923, 924, 924, 924, 925, 925,
        925, 926, 926, 926, 927, 927,
    ]
}

/// Continuation of `arctangent_samples_thousandths_0`.
pub(crate) fn arctangent_samples_thousandths_1() -> [u16; 1334] {
    [
        928, 928, 928, 929, 929, 929, 930, 930, 930, 931, 931, 931, 932, 932, 933, 933,
        933, 934, 934, 934, 935, 935, 935, 936, 936, 936, 937, 937, 937, 938, 938, 939,
        939, 939, 940, 940, 940, 941, 941, 941, 942, 942, 942, 943, 943, 943, 944, 944,
        944, 945, 945, 945, 946, 946, 946, 947, 947, 947, 948, 948, 949, 949, 949, 950,
        950, 950, 951, 951, 951, 952, 952, 952, 953, 953, 953, 954, 954, 954, 955, 955,
        955, 956, 956, 956, 957, 957, 957, 958, 958, 958, 959, 959, 959, 960, 960, 960,
        961, 961, 961, 962, 962, 962, 963, 963, 963, 963, 964, 964, 964, 965, 965, 965,
        966, 966, 966, 967, 967, 967, 968, 968, 968, 969, 969, 969, 970, 970, 970, 971,
        971, 971, 972, 972, 972, 972, 973, 973, 973, 974, 974, 974, 975, 975, 975, 976,
        976, 976, 977, 977, 977, 978, 978, 978, 978, 979, 979, 979, 980, 980, 980, 981,
        981, 981, 982, 982, 982, 982, 983, 983, 983, 984, 984, 984, 985, 985, 985, 986,
        986, 986, 986, 987, 987, 987, 988, 988, 988, 989, 989, 989, 989, 990, 990, 990,
        991, 991, 991, 992, 992, 992, 992, 993, 993, 993, 994, 994, 994, 995, 995, 995,
        995, 996, 996, 996, 997, 997, 997, 998, 998, 998, 998, 999, 999, 999, 1000, 1000,
        1000, 1000, 1001, 1001, 1001, 1002, 1002, 1002, 1002, 1003, 1003, 1003, 1004, 1004, 1004, 1005,
        1005, 1005, 1005, 1006, 1006, 1006, 1007, 1007, 1007, 1007, 1008, 1008, 1008, 1009, 1009, 1009,
        1009, 1010, 1010, 1010, 1011, 1011, 1011, 1011, 1012, 1012, 1012, 1012, 1013, 1013, 1013, 1014,
        1014, 1014, 1014, 1015, 1015, 1015, 1016, 1016, 1016, 1016, 1017, 1017, 1017, 1017, 1018, 1018,
        1018, 1019, 1019, 1019, 1019, 1020, 1020, 1020, 1021, 1021, 1021, 1021, 1022, 1022, 1022, 1022,
        1023, 1023, 1023, 1024, 1024, 1024, 1024, 1025, 1025, 1025, 1025, 1026, 1026, 1026, 1026, 1027,
        1027, 1027, 1028, 1028, 1028, 1028, 1029, 1029, 1029, 1029, 1030, 1030, 1030, 1030, 1031, 1031,
        1031, 1032, 1032, 1032, 1032, 1033, 1033, 1033, 1033, 1034, 1034, 1034, 1034, 1035, 1035, 1035,
        1035, 1036, 1036, 1036, 1036, 1037, 1037, 1037, 1038, 1038, 1038, 1038, 1039, 1039, 1039, 1039,
        1040, 1040, 1040, 1040, 1041, 1041, 1041, 1041, 1042, 1042, 1042, 1042, 1043, 1043, 1043, 1043,
        1044, 1044, 1044, 1044, 1045, 1045, 1045, 1045, 1046, 1046, 1046, 1046, 1047, 1047, 1047, 1047,
        1048, 1048, 1048, 1048, 1049, 1049, 1049, 1049, 1050, 1050, 1050, 1050, 1051, 1051, 1051, 1051,
        1052, 1052, 1052, 1052, 1053, 1053, 1053, 1053, 1054, 1054, 1054, 1054, 1055, 1055, 1055, 1055,
        1056, 1056, 1056, 1056, 1057, 1057, 1057, 1057, 1057, 1058, 1058, 1058, 1058, 1059, 1059, 1059,
        1059, 1060, 1060, 1060, 1060, 1061, 1061, 1061, 1061, 1062, 1062, 1062, 1062, 1063, 1063, 1063,
        1063, 1063, 1064, 1064, 1064, 1064, 1065, 1065, 1065, 1065, 1066, 1066, 1066, 1066, 1067, 1067,
        1067, 1067, 1067, 1068, 1068, 1068, 1068, 1069, 1069, 1069, 1069, 1070, 1070, 1070, 1070, 1070,
        1071, 1071, 1071, 1071, 1072, 1072, 1072, 1072, 1073, 1073, 1073, 1073, 1073, 1074, 1074, 1074,
        1074, 1075, 1075, 1075, 1075, 1075, 1076, 1076, 1076, 1076, 1077, 1077, 1077, 1077, 1077, 1078,
        1078, 1078, 1078, 1079, 1079, 1079, 1079, 1080, 1080, 1080, 1080, 1080, 1081, 1081, 1081, 1081,
        1082, 1082, 1082, 1082, 1082, 1083, 1083, 1083, 1083, 1083, 1084, 1084, 1084, 1084, 1085, 1085,
        1085, 1085, 1085, 1086, 1086, 1086, 1086, 1087, 1087, 1087, 1087, 1087, 1088, 1088, 1088, 1088,
        1088, 1089, 1089, 1089, 1089, 1090, 1090, 1090, 1090, 1090, 1091, 1091, 1091, 1091, 1091, 1092,
        1092, 1092, 1092, 1093, 1093, 1093, 1093, 1093, 1094, 1094, 1094, 1094, 1094, 1095, 1095, 1095,
        1095, 1095, 1096, 1096, 1096, 1096, 1097, 1097, 1097, 1097, 1097, 1098, 1098, 1098, 1098, 1098,
        1099, 1099, 1099, 1099, 1099, 1100, 1100, 1100, 1100, 1100, 1101, 1101, 1101, 1101, 1101, 1102,
        1102, 1102, 1102, 1103, 1103, 1103, 1103, 1103, 1104, 1104, 1104, 1104, 1104, 1105, 1105, 1105,
        1105, 1105, 1106, 1106, 1106, 1106, 1106, 1107, 1107, 1107, 1107, 1107, 1108, 1108, 1108, 1108,
        1108, 1109, 1109, 1109, 1109, 1109, 1110, 1110, 1110, 1110, 1110, 1111, 1111, 1111, 1111, 1111,
        1112, 1112, 1112, 1112, 1112, 1112, 1113, 1113, 1113, 1113, 1113, 1114, 1114, 1114, 1114, 1114,
        1115, 1115, 1115, 1115, 1115, 1116, 1116, 1116, 1116, 1116, 1117, 1117, 1117, 1117, 1117, 1118,
        1118, 1118, 1118, 1118, 1118, 1119, 1119, 1119, 1119, 1119, 1120, 1120, 1120, 1120, 1120, 1121,
        1121, 1121, 1121, 1121, 1122, 1122, 1122, 1122, 1122, 1122, 1123, 1123, 1123, 1123, 1123, 1124,
        1124, 1124, 1124, 1124, 1125, 1125, 1125, 1125, 1125, 1125, 1126, 1126, 1126, 1126, 1126, 1127,
        1127, 1127, 1127, 1127, 1127, 1128, 1128, 1128, 1128, 1128, 1129, 1129, 1129, 1129, 1129, 1129,
        1130, 1130, 1130, 1130, 1130, 1131, 1131, 1131, 1131, 1131, 1131, 1132, 1132, 1132, 1132, 1132,
        1133, 1133, 1133, 1133, 1133, 1133, 1134, 1134, 1134, 1134, 1134, 1135, 1135, 1135, 1135, 1135,
        1135, 1136, 1136, 1136, 1136, 1136, 1137, 1137, 1137, 1137, 1137, 1137, 1138, 1138, 1138, 1138,
        1138, 1138, 1139, 1139, 1139, 1139, 1139, 1139, 1140, 1140, 1140, 1140, 1140, 1141, 1141, 1141,
        1141, 1141, 1141, 1142, 1142, 1142, 1142, 1142, 1142, 1143, 1143, 1143, 1143, 1143, 1143, 1144,
        1144, 1144, 1144, 1144, 1145, 1145, 1145, 1145, 1145, 1145, 1146, 1146, 1146, 1146, 1146, 1146,
        1147, 1147, 1147, 1147, 1147, 1147, 1148, 1148, 1148, 1148, 1148, 1148, 1149, 1149, 1149, 1149,
        1149, 1149, 1150, 1150, 1150, 1150, 1150, 1150, 1151, 1151, 1151, 1151, 1151, 1151, 1152, 1152,
        1152, 1152, 1152, 1152, 1153, 1153, 1153, 1153, 1153, 1153, 1154, 1154, 1154, 1154, 1154, 1154,
        1155, 1155, 1155, 1155, 1155, 1155, 1156, 1156, 1156, 1156, 1156, 1156, 1156, 1157, 1157, 1157,
        1157, 1157, 1157, 1158, 1158, 1158, 1158, 1158, 1158, 1159, 1159, 1159, 1159, 1159, 1159, 1160,
        1160, 1160, 1160, 1160, 1160, 1161, 1161, 1161, 1161, 1161, 1161, 1161, 1162, 1162, 1162, 1162,
        1162, 1162, 1163, 1163, 1163, 1163, 1163, 1163, 1164, 1164, 1164, 1164, 1164, 1164, 1164, 1165,
        1165, 1165, 1165, 1165, 1165, 1166, 1166, 1166, 1166, 1166, 1166, 1166, 1167, 1167, 1167, 1167,
        1167, 1167, 1168, 1168, 1168, 1168, 1168, 1168, 1168, 1169, 1169, 1169, 1169, 1169, 1169, 1170,
        1170, 1170, 1170, 1170, 1170, 1170, 1171, 1171, 1171, 1171, 1171, 1171, 1172, 1172, 1172, 1172,
        1172, 1172, 1172, 1173, 1173, 1173, 1173, 1173, 1173, 1173, 1174, 1174, 1174, 1174, 1174, 1174,
        1175, 1175, 1175, 1175, 1175, 1175, 1175, 1176, 1176, 1176, 1176, 1176, 1176, 1176, 1177, 1177,
        1177, 1177, 1177, 1177, 1177, 1178, 1178, 1178, 1178, 1178, 1178, 1179, 1179, 1179, 1179, 1179,
        1179, 1179, 1180, 1180, 1180, 1180, 1180, 1180, 1180, 1181, 1181, 1181, 1181, 1181, 1181, 1181,
        1182, 1182, 1182, 1182, 1182, 1182, 1182, 1183, 1183, 1183, 1183, 1183, 1183, 1183, 1184, 1184,
        1184, 1184, 1184, 1184, 1184, 1185, 1185, 1185, 1185, 1185, 1185, 1185, 1186, 1186, 1186, 1186,
        1186, 1186, 1186, 1187, 1187, 1187, 1187, 1187, 1187, 1187, 1188, 1188, 1188, 1188, 1188, 1188,
        1188, 1188, 1189, 1189, 1189, 1189, 1189, 1189, 1189, 1190, 1190, 1190, 1190, 1190, 1190, 1190,
        1191, 1191, 1191, 1191, 1191, 1191, 1191, 1192, 1192, 1192, 1192, 1192, 1192, 1192, 1192, 1193,
        1193, 1193, 1193, 1193, 1193, 1193, 1194, 1194, 1194, 1194, 1194, 1194, 1194, 1195, 1195, 1195,
        1195, 1195, 1195, 1195, 1195, 1196, 1196, 1196, 1196, 1196, 1196, 1196, 1197, 1197, 1197, 1197,
        1197, 1197, 1197, 1197, 1198, 1198, 1198, 1198, 1198, 1198, 1198, 1199, 1199, 1199, 1199, 1199,
        1199, 1199, 1199, 1200, 1200, 1200, 1200, 1200, 1200, 1200, 1201, 1201, 1201, 1201, 1201, 1201,
        1201, 1201, 1202, 1202, 1202, 1202, 1202, 1202, 1202, 1202, 1203, 1203, 1203, 1203, 1203, 1203,
        1203, 1203, 1204, 1204, 1204, 1204, 1204, 1204, 1204, 1205, 1205, 1205, 1205, 1205, 1205, 1205,
        1205, 1206, 1206, 1206, 1206, 1206, 1206, 1206, 1206, 1207, 1207, 1207, 1207, 1207, 1207, 1207,
        1207, 1208, 1208, 1208, 1208, 1208, 1208, 1208, 1208, 1209, 1209, 1209, 1209, 1209, 1209, 1209,
        1209, 1210, 1210, 1210, 1210, 1210, 1210, 1210, 1210, 1211, 1211, 1211, 1211, 1211, 1211, 1211,
        1211, 1212, 1212, 1212, 1212, 1212,
    ]
}

/// Continuation of `arctangent_samples_thousandths_0`.
pub(crate) fn arctangent_samples_thousandths_2() -> [u16; 1333] {
    [
        1212, 1212, 1212, 1213, 1213, 1213, 1213, 1213, 1213, 1213, 1213, 1214, 1214, 1214, 1214, 1214,
        1214, 1214, 1214, 1215, 1215, 1215, 1215, 1215, 1215, 1215, 1215, 1215, 1216, 1216, 1216, 1216,
        1216, 1216, 1216, 1216, 1217, 1217, 1217, 1217, 1217, 1217, 1217, 1217, 1218, 1218, 1218, 1218,
        1218, 1218, 1218, 1218, 1218, 1219, 1219, 1219, 1219, 1219, 1219, 1219, 1219, 1220, 1220, 1220,
        1220, 1220, 1220, 1220, 1220, 1221, 1221, 1221, 1221, 1221, 1221, 1221, 1221, 1221, 1222, 1222,
        1222, 1222, 1222, 1222, 1222, 1222, 1222, 1223, 1223, 1223, 1223, 1223, 1223, 1223, 1223, 1224,
        1224, 1224, 1224, 1224, 1224, 1224, 1224, 1224, 1225, 1225, 1225, 1225, 1225, 1225, 1225, 1225,
        1225, 1226, 1226, 1226, 1226, 1226, 1226, 1226, 1226, 1227, 1227, 1227, 1227, 1227, 1227, 1227,
        1227, 1227, 1228, 1228, 1228, 1228, 1228, 1228, 1228, 1228, 1228, 1229, 1229, 1229, 1229, 1229,
        1229, 1229, 1229, 1229, 1230, 1230, 1230, 1230, 1230, 1230, 1230, 1230, 1230, 1231, 1231, 1231,
        1231, 1231, 1231, 1231, 1231, 1231, 1232, 1232, 1232, 1232, 1232, 1232, 1232, 1232, 1232, 1233,
        1233, 1233, 1233, 1233, 1233, 1233, 1233, 1233, 1234, 1234, 1234, 1234, 1234, 1234, 1234, 1234,
        1234, 1235, 1235, 1235, 1235, 1235, 1235, 1235, 1235, 1235, 1236, 1236, 1236, 1236, 1236, 1236,
        1236, 1236, 1236, 1236, 1237, 1237, 1237, 1237, 1237, 1237, 1237, 1237, 1237, 1238, 1238, 1238,
        1238, 1238, 1238, 1238, 1238, 1238, 1239, 1239, 1239, 1239, 1239, 1239, 1239, 1239, 1239, 1239,
        1240, 1240, 1240, 1240, 1240, 1240, 1240, 1240, 1240, 1241, 1241, 1241, 1241, 1241, 1241, 1241,
        1241, 1241, 1241, 1242, 1242, 1242, 1242, 1242, 1242, 1242, 1242, 1242, 1243, 1243, 1243, 1243,
        1243, 1243, 1243, 1243, 1243, 1243, 1244, 1244, 1244, 1244, 1244, 1244, 1244, 1244, 1244, 1244,
        1245, 1245, 1245, 1245, 1245, 1245, 1245, 1245, 1245, 1246, 1246, 1246, 1246, 1246, 1246, 1246,
        1246, 1246, 1246, 1247, 1247, 1247, 1247, 1247, 1247, 1247, 1247, 1247, 1247, 1248, 1248, 1248,
        1248, 1248, 1248, 1248, 1248, 1248, 1248, 1249, 1249, 1249, 1249, 1249, 1249, 1249, 1249, 1249,
        1249, 1250, 1250, 1250, 1250, 1250, 1250, 1250, 1250, 1250, 1250, 1251, 1251, 1251, 1251, 1251,
        1251, 1251, 1251, 1251, 1251, 1252, 1252, 1252, 1252, 1252, 1252, 1252, 1252, 1252, 1252, 1253,
        1253, 1253, 1253, 1253, 1253, 1253, 1253, 1253, 1253, 1253, 1254, 1254, 1254, 1254, 1254, 1254,
        1254, 1254, 1254, 1254, 1255, 1255, 1255, 1255, 1255, 1255, 1255, 1255, 1255, 1255, 1256, 1256,
        1256, 1256, 1256, 1256, 1256, 1256, 1256, 1256, 1256, 1257, 1257, 1257, 1257, 1257, 1257, 1257,
        1257, 1257, 1257, 1258, 1258, 1258, 1258, 1258, 1258, 1258, 1258, 1258, 1258, 1258, 1259, 1259,
        1259, 1259, 1259, 1259, 1259, 1259, 1259, 1259, 1260, 1260, 1260, 1260, 1260, 1260, 1260, 1260,
        1260, 1260, 1260, 1261, 1261, 1261, 1261, 1261, 1261, 1261, 1261, 1261, 1261, 1261, 1262, 1262,
        1262, 1262, 1262, 1262, 1262, 1262, 1262, 1262, 1262, 1263, 1263, 1263, 1263, 1263, 1263, 1263,
        1263, 1263, 1263, 1263, 1264, 1264, 1264, 1264, 1264, 1264, 1264, 1264, 1264, 1264, 1264, 1265,
        1265, 1265, 1265, 1265, 1265, 1265, 1265, 1265, 1265, 1265, 1266, 1266, 1266, 1266, 1266, 1266,
        1266, 1266, 1266, 1266, 1266, 1267, 1267, 1267, 1267, 1267, 1267, 1267, 1267, 1267, 1267, 1267,
        1268, 1268, 1268, 1268, 1268, 1268, 1268, 1268, 1268, 1268, 1268, 1269, 1269, 1269, 1269, 1269,
        1269, 1269, 1269, 1269, 1269, 1269, 1270, 1270, 1270, 1270, 1270, 1270, 1270, 1270, 1270, 1270,
        1270, 1270, 1271, 1271, 1271, 1271, 1271, 1271, 1271, 1271, 1271, 1271, 1271, 1272, 1272, 1272,
        1272, 1272, 1272, 1272, 1272, 1272, 1272, 1272, 1272, 1273, 1273, 1273, 1273, 1273, 1273, 1273,
        1273, 1273, 1273, 1273, 1274, 1274, 1274, 1274, 1274, 1274, 1274, 1274, 1274, 1274, 1274, 1274,
        1275, 1275, 1275, 1275, 1275, 1275, 1275, 1275, 1275, 1275, 1275, 1275, 1276, 1276, 1276, 1276,
        1276, 1276, 1276, 1276, 1276, 1276, 1276, 1276, 1277, 1277, 1277, 1277, 1277, 1277, 1277, 1277,
        1277, 1277, 1277, 1277, 1278, 1278, 1278, 1278, 1278, 1278, 1278, 1278, 1278, 1278, 1278, 1278,
        1279, 1279, 1279, 1279, 1279, 1279, 1279, 1279, 1279, 1279, 1279, 1279, 1280, 1280, 1280, 1280,
        1280, 1280, 1280, 1280, 1280, 1280, 1280, 1280, 1281, 1281, 1281, 1281, 1281, 1281, 1281, 1281,
        1281, 1281, 1281, 1281, 1282, 1282, 1282, 1282, 1282, 1282, 1282, 1282, 1282, 1282, 1282, 1282,
        1282, 1283, 1283, 1283, 1283, 1283, 1283, 1283, 1283, 1283, 1283, 1283, 1283, 1284, 1284, 1284,
        1284, 1284, 1284, 1284, 1284, 1284, 1284, 1284, 1284, 1285, 1285, 1285, 1285, 1285, 1285, 1285,
        1285, 1285, 1285, 1285, 1285, 1285, 1286, 1286, 1286, 1286, 1286, 1286, 1286, 1286, 1286, 1286,
        1286, 1286, 1286, 1287, 1287, 1287, 1287, 1287, 1287, 1287, 1287, 1287, 1287, 1287, 1287, 1288,
        1288, 1288, 1288, 1288, 1288, 1288, 1288, 1288, 1288, 1288, 1288, 1288, 1289, 1289, 1289, 1289,
        1289, 1289, 1289, 1289, 1289, 1289, 1289, 1289, 1289, 1290, 1290, 1290, 1290, 1290, 1290, 1290,
        1290, 1290, 1290, 1290, 1290, 1290, 1291, 1291, 1291, 1291, 1291, 1291, 1291, 1291, 1291, 1291,
        1291, 1291, 1291, 1292, 1292, 1292, 1292, 1292, 1292, 1292, 1292, 1292, 1292, 1292, 1292, 1292,
        1292, 1293, 1293, 1293, 1293, 1293, 1293, 1293, 1293, 1293, 1293, 1293, 1293, 1293, 1294, 1294,
        1294, 1294, 1294, 1294, 1294, 1294, 1294, 1294, 1294, 1294, 1294, 1295, 1295, 1295, 1295, 1295,
        1295, 1295, 1295, 1295, 1295, 1295, 1295, 1295, 1295, 1296, 1296, 1296, 1296, 1296, 1296, 1296,
        1296, 1296, 1296, 1296, 1296, 1296, 1297, 1297, 1297, 1297, 1297, 1297, 1297, 1297, 1297, 1297,
        1297, 1297, 1297, 1297, 1298, 1298, 1298, 1298, 1298, 1298, 1298, 1298, 1298, 1298, 1298, 1298,
        1298, 1298, 1299, 1299, 1299, 1299, 1299, 1299, 1299, 1299, 1299, 1299, 1299, 1299, 1299, 1299,
        1300, 1300, 1300, 1300, 1300, 1300, 1300, 1300, 1300, 1300, 1300, 1300, 1300, 1300, 1301, 1301,
        1301, 1301, 1301, 1301, 1301, 1301, 1301, 1301, 1301, 1301, 1301, 1301, 1302, 1302, 1302, 1302,
        1302, 1302, 1302, 1302, 1302, 1302, 1302, 1302, 1302, 1302, 1303, 1303, 1303, 1303, 1303, 1303,
        1303, 1303, 1303, 1303, 1303, 1303, 1303, 1303, 1304, 1304, 1304, 1304, 1304, 1304, 1304, 1304,
        1304, 1304, 1304, 1304, 1304, 1304, 1304, 1305, 1305, 1305, 1305, 1305, 1305, 1305, 1305, 1305,
        1305, 1305, 1305, 1305, 1305, 1306, 1306, 1306, 1306, 1306, 1306, 1306, 1306, 1306, 1306, 1306,
        1306, 1306, 1306, 1306, 1307, 1307, 1307, 1307, 1307, 1307, 1307, 1307, 1307, 1307, 1307, 1307,
        1307, 1307, 1308, 1308, 1308, 1308, 1308, 1308, 1308, 1308, 1308, 1308, 1308, 1308, 1308, 1308,
        1308, 1309, 1309, 1309, 1309, 1309, 1309, 1309, 1309, 1309, 1309, 1309, 1309, 1309, 1309, 1309,
        1310, 1310, 1310, 1310, 1310, 1310, 1310, 1310, 1310, 1310, 1310, 1310, 1310, 1310, 1310, 1311,
        1311, 1311, 1311, 1311, 1311, 1311, 1311, 1311, 1311, 1311, 1311, 1311, 1311, 1311, 1312, 1312,
        1312, 1312, 1312, 1312, 1312, 1312, 1312, 1312, 1312, 1312, 1312, 1312, 1312, 1312, 1313, 1313,
        1313, 1313, 1313, 1313, 1313, 1313, 1313, 1313, 1313, 1313, 1313, 1313, 1313, 1314, 1314, 1314,
        1314, 1314, 1314, 1314, 1314, 1314, 1314, 1314, 1314, 1314, 1314, 1314, 1315, 1315, 1315, 1315,
        1315, 1315, 1315, 1315, 1315, 1315, 1315, 1315, 1315, 1315, 1315, 1315, 1316, 1316, 1316, 1316,
        1316, 1316, 1316, 1316, 1316, 1316, 1316, 1316, 1316, 1316, 1316, 1316, 1317, 1317, 1317, 1317,
        1317, 1317, 1317, 1317, 1317, 1317, 1317, 1317, 1317, 1317, 1317, 1317, 1318, 1318, 1318, 1318,
        1318, 1318, 1318, 1318, 1318, 1318, 1318, 1318, 1318, 1318, 1318, 1318, 1319, 1319, 1319, 1319,
        1319, 1319, 1319, 1319, 1319, 1319, 1319, 1319, 1319, 1319, 1319, 1319, 1320, 1320, 1320, 1320,
        1320, 1320, 1320, 1320, 1320, 1320, 1320, 1320, 1320, 1320, 1320, 1320, 1321, 1321, 1321, 1321,
        1321, 1321, 1321, 1321, 1321, 1321, 1321, 1321, 1321, 1321, 1321, 1321, 1322, 1322, 1322, 1322,
        1322, 1322, 1322, 1322, 1322, 1322, 1322, 1322, 1322, 1322, 1322, 1322, 1322, 1323, 1323, 1323,
        1323, 1323, 1323, 1323, 1323, 1323, 1323, 1323, 1323, 1323, 1323, 1323, 1323, 1324, 1324, 1324,
        1324, 1324, 1324, 1324, 1324, 1324, 1324, 1324, 1324, 1324, 1324, 1324, 1324, 1324, 1325, 1325,
        1325, 1325, 1325, 1325, 1325, 1325, 1325, 1325, 1325, 1325, 1325, 1325, 1325, 1325, 1325, 1326,
        1326, 1326, 1326, 1326, 1326,
    ]
}

} // verus!
