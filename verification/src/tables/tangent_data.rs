use vstd::prelude::*;

verus! {

/// Tangent samples: slot `a` holds `tan(a / 1000)` in thousandths,
/// rounded to the nearest integer.
pub(crate) fn tangent_samples_0() -> [i32; 572] {
    [
        0, 1, 2, 3, 4, 5, 6, 7, 8, 9, 10, 11, 12, 13, 14, 15,
        16, 17, 18, 19, 20, 21, 22, 23, 24, 25, 26, 27, 28, 29, 30, 31,
        32, 33, 34, 35, 36, 37, 38, 39, 40, 41, 42, 43, 44, 45, 46, 47,
        48, 49, 50, 51, 52, 53, 54, 55, 56, 57, 58, 59, 60, 61, 62, 63,
        64, 65, 66, 67, 68, 69, 70, 71, 72, 73, 74, 75, 76, 77, 78, 79,
        80, 81, 82, 83, 84, 85, 86, 87, 88, 89, 90, 91, 92, 93, 94, 95,
        96, 97, 98, 99, 100, 101, 102, 103, 104, 105, 106, 107, 108, 109, 110, 111,
        112, 113, 114, 116, 117, 118, 119, 120, 121, 122, 123, 124, 125, 126, 127, 128,
        129, 130, 131, 132, 133, 134, 135, 136, 137, 138, 139, 140, 141, 142, 143, 144,
        145, 146, 147, 148, 149, 150, 151, 152, 153, 154, 155, 156, 157, 158, 159, 160,
        161, 162, 163, 164, 165, 167, 168, 169, 170, 171, 172, 173, 174, 175, 176, 177,
        178, 179, 180, 181, 182, 183, 184, 185, 186, 187, 188, 189, 190, 191, 192, 193,
        194, 195, 196, 198, 199, 200, 201, 202, 203, 204, 205, 206, 207, 208, 209, 210,
        211, 212, 213, 214, 215, 216, 217, 218, 219, 220, 222, 223, 224, 225, 226, 227,
        228, 229, 230, 231, 232, 233, 234, 235, 236, 237, 238, 239, 240, 242, 243, 244,
        245, 246, 247, 248, 249, 250, 251, 252, 253, 254, 255, 256, 257, 259, 260, 261,
        262, 263, 264, 265, 266, 267, 268, 269, 270, 271, 272, 274, 275, 276, 277, 278,
        279, 280, 281, 282, 283, 284, 285, 286, 288, 289, 290, 291, 292, 293, 294, 295,
        296, 297, 298, 300, 301, 302, 303, 304, 305, 306, 307, 308, 309, 310, 312, 313,
        314, 315, 316, 317, 318, 319, 320, 321, 323, 324, 325, 326, 327, 328, 329, 330,
        331, 332, 334, 335, 336, 337, 338, 339, 340, 341, 343, 344, 345, 346, 347, 348,
        349, 350, 351, 353, 354, 355, 356, 357, 358, 359, 361, 362, 363, 364, 365, 366,
        367, 368, 370, 371, 372, 373, 374, 375, 376, 378, 379, 380, 381, 382, 383, 384,
        386, 387, 388, 389, 390, 391, 392, 394, 395, 396, 397, 398, 399, 401, 402, 403,
        404, 405, 406, 408, 409, 410, 411, 412, 413, 415, 416, 417, 418, 419, 420, 422,
        423, 424, 425, 426, 428, 429, 430, 431, 432, 433, 435, 436, 437, 438, 439, 441,
        442, 443, 444, 445, 447, 448, 449, 450, 451, 453, 454, 455, 456, 457, 459, 460,
        461, 462, 463, 465, 466, 467, 468, 470, 471, 472, 473, 474, 476, 477, 478, 479,
        481, 482, 483, 484, 486, 487, 488, 489, 490, 492, 493, 494, 495, 497, 498, 499,
        500, 502, 503, 504, 505, 507, 508, 509, 510, 512, 513, 514, 516, 517, 518, 519,
        521, 522, 523, 524, 526, 527, 528, 530, 531, 532, 533, 535, 536, 537, 539, 540,
        541, 542, 544, 545, 546, 548, 549, 550, 552, 553, 554, 555, 557, 558, 559, 561,
        562, 563, 565, 566, 567, 569, 570, 571, 573, 574, 575, 577, 578, 579, 581, 582,
        583, 585, 586, 587, 589, 590, 591, 593, 594, 595, 597, 598, 599, 601, 602, 604,
        605, 606, 608, 609, 610, 612, 613, 614, 616, 617, 619, 620, 621, 623, 624, 626,
        627, 628, 630, 631, 633, 634, 635, 637, 638, 640, 641, 642,
    ]
}

/// Continuation of `tangent_samples_0`.
pub(crate) fn tangent_samples_1() -> [i32; 572] {
    [
        644, 645, 647, 648, 649, 651, 652, 654, 655, 657, 658, 659, 661, 662, 664, 665,
        667, 668, 670, 671, 672, 674, 675, 677, 678, 680, 681, 683, 684, 686, 687, 689,
        690, 692, 693, 694, 696, 697, 699, 700, 702, 703, 705, 706, 708, 709, 711, 712,
        714, 715, 717, 718, 720, 721, 723, 725, 726, 728, 729, 731, 732, 734, 735, 737,
        738, 740, 741, 743, 745, 746, 748, 749, 751, 752, 754, 755, 757, 759, 760, 762,
        763, 765, 767, 768, 770, 771, 773, 775, 776, 778, 779, 781, 783, 784, 786, 787,
        789, 791, 792, 794, 796, 797, 799, 800, 802, 804, 805, 807, 809, 810, 812, 814,
        815, 817, 819, 820, 822, 824, 825, 827, 829, 830, 832, 834, 835, 837, 839, 841,
        842, 844, 846, 847, 849, 851, 853, 854, 856, 858, 860, 861, 863, 865, 867, 868,
        870, 872, 874, 875, 877, 879, 881, 882, 884, 886, 888, 890, 891, 893, 895, 897,
        899, 900, 902, 904, 906, 908, 909, 911, 913, 915, 917, 919, 920, 922, 924, 926,
        928, 930, 932, 933, 935, 937, 939, 941, 943, 945, 947, 949, 950, 952, 954, 956,
        958, 960, 962, 964, 966, 968, 970, 972, 974, 976, 977, 979, 981, 983, 985, 987,
        989, 991, 993, 995, 997, 999, 1001, 1003, 1005, 1007, 1009, 1011, 1013, 1015, 1017, 1019,
        1021, 1023, 1026, 1028, 1030, 1032, 1034, 1036, 1038, 1040, 1042, 1044, 1046, 1048, 1050, 1053,
        1055, 1057, 1059, 1061, 1063, 1065, 1067, 1070, 1072, 1074, 1076, 1078, 1080, 1083, 1085, 1087,
        1089, 1091, 1093, 1096, 1098, 1100, 1102, 1104, 1107, 1109, 1111, 1113, 1116, 1118, 1120, 1122,
        1125, 1127, 1129, 1131, 1134, 1136, 1138, 1141, 1143, 1145, 1148, 1150, 1152, 1155, 1157, 1159,
        1162, 1164, 1166, 1169, 1171, 1173, 1176, 1178, 1181, 1183, 1185, 1188, 1190, 1193, 1195, 1197,
        1200, 1202, 1205, 1207, 1210, 1212, 1215, 1217, 1220, 1222, 1225, 1227, 1230, 1232, 1235, 1237,
        1240, 1242, 1245, 1247, 1250, 1252, 1255, 1258, 1260, 1263, 1265, 1268, 1271, 1273, 1276, 1278,
        1281, 1284, 1286, 1289, 1292, 1294, 1297, 1300, 1302, 1305, 1308, 1311, 1313, 1316, 1319, 1321,
        1324, 1327, 1330, 1333, 1335, 1338, 1341, 1344, 1346, 1349, 1352, 1355, 1358, 1361, 1364, 1366,
        1369, 1372, 1375, 1378, 1381, 1384, 1387, 1390, 1392, 1395, 1398, 1401, 1404, 1407, 1410, 1413,
        1416, 1419, 1422, 1425, 1428, 1431, 1434, 1438, 1441, 1444, 1447, 1450, 1453, 1456, 1459, 1462,
        1465, 1469, 1472, 1475, 1478, 1481, 1485, 1488, 1491, 1494, 1497, 1501, 1504, 1507, 1510, 1514,
        1517, 1520, 1524, 1527, 1530, 1534, 1537, 1540, 1544, 1547, 1551, 1554, 1557, 1561, 1564, 1568,
        1571, 1575, 1578, 1582, 1585, 1589, 1592, 1596, 1599, 1603, 1606, 1610, 1614, 1617, 1621, 1624,
        1628, 1632, 1635, 1639, 1643, 1647, 1650, 1654, 1658, 1661, 1665, 1669, 1673, 1677, 1680, 1684,
        1688, 1692, 1696, 1700, 1704, 1708, 1711, 1715, 1719, 1723, 1727, 1731, 1735, 1739, 1743, 1747,
        1751, 1755, 1760, 1764, 1768, 1772, 1776, 1780, 1784, 1789, 1793, 1797, 1801, 1806, 1810, 1814,
        1818, 1823, 1827, 1831, 1836, 1840, 1845, 1849, 1853, 1858, 1862, 1867, 1871, 1876, 1880, 1885,
        1889, 1894, 1899, 1903, 1908, 1912, 1917, 1922, 1926, 1931, 1936, 1941, 1945, 1950, 1955, 1960,
        1965, 1970, 1975, 1979, 1984, 1989, 1994, 1999, 2004, 2009, 2014, 2019, 2024, 2030, 2035, 2040,
        2045, 2050, 2055, 2061, 2066, 2071, 2077, 2082, 2087, 2093, 2098, 2103, 2109, 2114, 2120, 2125,
        2131, 2136, 2142, 2148, 2153, 2159, 2164, 2170, 2176, 2182, 2187, 2193,
    ]
}

/// Continuation of `tangent_samples_0`.
pub(crate) fn tangent_samples_2() -> [i32; 571] {
    [
        2199, 2205, 2211, 2217, 2223, 2229, 2234, 2241, 2247, 2253, 2259, 2265, 2271, 2277, 2283, 2290,
        2296, 2302, 2308, 2315, 2321, 2328, 2334, 2340, 2347, 2353, 2360, 2367, 2373, 2380, 2387, 2393,
        2400, 2407, 2414, 2420, 2427, 2434, 2441, 2448, 2455, 2462, 2469, 2476, 2483, 2491, 2498, 2505,
        2512, 2520, 2527, 2535, 2542, 2549, 2557, 2565, 2572, 2580, 2587, 2595, 2603, 2611, 2619, 2626,
        2634, 2642, 2650, 2658, 2666, 2675, 2683, 2691, 2699, 2708, 2716, 2724, 2733, 2741, 2750, 2758,
        2767, 2776, 2784, 2793, 2802, 2811, 2820, 2829, 2838, 2847, 2856, 2865, 2874, 2884, 2893, 2902,
        2912, 2921, 2931, 2941, 2950, 2960, 2970, 2980, 2990, 3000, 3010, 3020, 3030, 3040, 3050, 3061,
        3071, 3081, 3092, 3103, 3113, 3124, 3135, 3146, 3157, 3168, 3179, 3190, 3201, 3212, 3224, 3235,
        3247, 3258, 3270, 3282, 3293, 3305, 3317, 3329, 3341, 3354, 3366, 3378, 3391, 3403, 3416, 3429,
        3441, 3454, 3467, 3480, 3493, 3507, 3520, 3533, 3547, 3561, 3574, 3588, 3602, 3616, 3630, 3644,
        3659, 3673, 3688, 3702, 3717, 3732, 3747, 3762, 3777, 3793, 3808, 3824, 3839, 3855, 3871, 3887,
        3903, 3920, 3936, 3953, 3969, 3986, 4003, 4020, 4037, 4055, 4072, 4090, 4108, 4126, 4144, 4162,
        4180, 4199, 4218, 4237, 4256, 4275, 4294, 4314, 4333, 4353, 4373, 4393, 4414, 4434, 4455, 4476,
        4497, 4519, 4540, 4562, 4584, 4606, 4628, 4651, 4673, 4696, 4720, 4743, 4767, 4790, 4814, 4839,
        4863, 4888, 4913, 4938, 4964, 4990, 5016, 5042, 5068, 5095, 5122, 5150, 5177, 5205, 5234, 5262,
        5291, 5320, 5350, 5379, 5410, 5440, 5471, 5502, 5533, 5565, 5597, 5630, 5663, 5696, 5729, 5763,
        5798, 5833, 5868, 5904, 5940, 5976, 6013, 6050, 6088, 6127, 6165, 6205, 6244, 6285, 6325, 6367,
        6408, 6451, 6494, 6537, 6581, 6626, 6671, 6717, 6763, 6810, 6858, 6906, 6955, 7005, 7055, 7107,
        7158, 7211, 7264, 7319, 7374, 7429, 7486, 7543, 7602, 7661, 7721, 7782, 7844, 7907, 7971, 8036,
        8103, 8170, 8238, 8308, 8378, 8450, 8523, 8597, 8673, 8750, 8828, 8908, 8989, 9071, 9155, 9241,
        9328, 9417, 9507, 9600, 9694, 9790, 9887, 9987, 10089, 10193, 10299, 10407, 10517, 10630, 10745, 10863,
        10983, 11106, 11232, 11361, 11492, 11627, 11765, 11906, 12050, 12198, 12350, 12505, 12665, 12828, 12996, 13168,
        13345, 13526, 13713, 13904, 14101, 14304, 14513, 14727, 14949, 15176, 15411, 15654, 15904, 16162, 16428, 16703,
        16988, 17283, 17588, 17904, 18231, 18571, 18923, 19289, 19670, 20065, 20477, 20906, 21354, 21821, 22308, 22818,
        23352, 23912, 24498, 25115, 25763, 26445, 27164, 27924, 28727, 29578, 30480, 31440, 32461, 33551, 34717, 35967,
        37310, 38757, 40320, 42015, 43859, 45872, 48078, 50508, 53196, 56185, 59531, 63301, 67579, 72478, 78143, 84768,
        92620, 102076, 113681, 128263, 147136, 172521, 208491, 263411, 357611, 556691, 1255766, -4909826, -830790, -453787, -312141, -237886,
        -192170, -161193, -138816, -121894, -108649, -98001, -89253, -81938, -75732, -70400, -65769, -61709, -58121, -54928, -52067, -49489,
        -47155, -45030, -43089, -41308, -39668, -38154, -36751, -35447, -34233, -33098, -32037, -31042, -30106, -29225, -28394, -27609,
        -26867, -26163, -25495, -24860, -24256, -23681, -23132, -22608, -22107, -21628, -21169, -20729, -20307, -19902, -19513, -19138,
        -18778, -18431, -18096, -17774, -17462, -17162, -16871, -16590, -16318, -16055, -15801, -15554, -15315, -15083, -14858, -14639,
        -14427, -14221, -14020, -13826, -13636, -13452, -13272, -13097, -12927, -12761, -12599, -12442, -12288, -12137, -11991, -11848,
        -11708, -11572, -11438, -11308, -11181, -11056, -10934, -10815, -10698, -10584, -10472, -10363, -10255, -10150, -10047, -9946,
        -9847, -9750, -9655, -9562, -9470, -9380, -9292, -9206, -9121, -9037, -8955, -8875, -8796, -8718, -8642, -8567,
        -8493, -8421, -8349, -8279, -8210, -8142, -8076, -8010, -7945, -7882, -7819, -7757, -7697, -7637, -7578, -7520,
        -7463, -7407, -7351, -7296, -7243, -7190, -7137, -7086, -7035, -6985, -6935,
    ]
}

/// Continuation of `tangent_samples_0`.
pub(crate) fn tangent_samples_3() -> [i32; 571] {
    [
        -6887, -6838, -6791, -6744, -6698, -6652, -6607, -6563, -6519, -6476, -6433, -6391, -6350, -6309, -6268, -6228,
        -6189, -6150, -6111, -6073, -6035, -5998, -5961, -5925, -5889, -5854, -5818, -5784, -5750, -5716, -5682, -5649,
        -5616, -5584, -5552, -5520, -5489, -5458, -5427, -5397, -5367, -5338, -5308, -5279, -5251, -5222, -5194, -5166,
        -5139, -5111, -5084, -5058, -5031, -5005, -4979, -4953, -4928, -4903, -4878, -4853, -4829, -4805, -4781, -4757,
        -4733, -4710, -4687, -4664, -4642, -4619, -4597, -4575, -4553, -4531, -4510, -4489, -4468, -4447, -4426, -4406,
        -4385, -4365, -4345, -4325, -4306, -4286, -4267, -4248, -4229, -4210, -4191, -4173, -4155, -4136, -4118, -4100,
        -4083, -4065, -4048, -4030, -4013, -3996, -3979, -3963, -3946, -3929, -3913, -3897, -3881, -3865, -3849, -3833,
        -3817, -3802, -3786, -3771, -3756, -3741, -3726, -3711, -3696, -3682, -3667, -3653, -3639, -3624, -3610, -3596,
        -3583, -3569, -3555, -3541, -3528, -3515, -3501, -3488, -3475, -3462, -3449, -3436, -3423, -3411, -3398, -3386,
        -3373, -3361, -3349, -3336, -3324, -3312, -3300, -3289, -3277, -3265, -3253, -3242, -3230, -3219, -3208, -3196,
        -3185, -3174, -3163, -3152, -3141, -3130, -3120, -3109, -3098, -3088, -3077, -3067, -3056, -3046, -3036, -3026,
        -3016, -3005, -2995, -2986, -2976, -2966, -2956, -2946, -2937, -2927, -2918, -2908, -2899, -2889, -2880, -2871,
        -2861, -2852, -2843, -2834, -2825, -2816, -2807, -2798, -2790, -2781, -2772, -2763, -2755, -2746, -2738, -2729,
        -2721, -2713, -2704, -2696, -2688, -2679, -2671, -2663, -2655, -2647, -2639, -2631, -2623, -2615, -2608, -2600,
        -2592, -2584, -2577, -2569, -2561, -2554, -2546, -2539, -2532, -2524, -2517, -2509, -2502, -2495, -2488, -2481,
        -2473, -2466, -2459, -2452, -2445, -2438, -2431, -2424, -2418, -2411, -2404, -2397, -2390, -2384, -2377, -2370,
        -2364, -2357, -2351, -2344, -2338, -2331, -2325, -2319, -2312, -2306, -2300, -2293, -2287, -2281, -2275, -2268,
        -2262, -2256, -2250, -2244, -2238, -2232, -2226, -2220, -2214, -2208, -2202, -2197, -2191, -2185, -2179, -2174,
        -2168, -2162, -2156, -2151, -2145, -2140, -2134, -2129, -2123, -2118, -2112, -2107, -2101, -2096, -2090, -2085,
        -2080, -2074, -2069, -2064, -2059, -2053, -2048, -2043, -2038, -2033, -2028, -2022, -2017, -2012, -2007, -2002,
        -1997, -1992, -1987, -1982, -1977, -1973, -1968, -1963, -1958, -1953, -1948, -1944, -1939, -1934, -1929, -1925,
        -1920, -1915, -1911, -1906, -1901, -1897, -1892, -1887, -1883, -1878, -1874, -1869, -1865, -1860, -1856, -1852,
        -1847, -1843, -1838, -1834, -1830, -1825, -1821, -1817, -1812, -1808, -1804, -1800, -1795, -1791, -1787, -1783,
        -1779, -1774, -1770, -1766, -1762, -1758, -1754, -1750, -1746, -1742, -1738, -1734, -1730, -1726, -1722, -1718,
        -1714, -1710, -1706, -1702, -1698, -1694, -1690, -1687, -1683, -1679, -1675, -1671, -1667, -1664, -1660, -1656,
        -1652, -1649, -1645, -1641, -1638, -1634, -1630, -1627, -1623, -1619, -1616, -1612, -1609, -1605, -1601, -1598,
        -1594, -1591, -1587, -1584, -1580, -1577, -1573, -1570, -1566, -1563, -1559, -1556, -1553, -1549, -1546, -1542,
        -1539, -1536, -1532, -1529, -1526, -1522, -1519, -1516, -1512, -1509, -1506, -1503, -1499, -1496, -1493, -1490,
        -1486, -1483, -1480, -1477, -1474, -1471, -1467, -1464, -1461, -1458, -1455, -1452, -1449, -1445, -1442, -1439,
        -1436, -1433, -1430, -1427, -1424, -1421, -1418, -1415, -1412, -1409, -1406, -1403, -1400, -1397, -1394, -1391,
        -1388, -1385, -1383, -1380, -1377, -1374, -1371, -1368, -1365, -1362, -1359, -1357, -1354, -1351, -1348, -1345,
        -1343, -1340, -1337, -1334, -1331, -1329, -1326, -1323, -1320, -1318, -1315, -1312, -1309, -1307, -1304, -1301,
        -1299, -1296, -1293, -1291, -1288, -1285, -1283, -1280, -1277, -1275, -1272, -1269, -1267, -1264, -1262, -1259,
        -1257, -1254, -1251, -1249, -1246, -1244, -1241, -1239, -1236, -1234, -1231, -1229, -1226, -1224, -1221, -1219,
        -1216, -1214, -1211, -1209, -1206, -1204, -1201, -1199, -1196, -1194, -1192, -1189, -1187, -1184, -1182, -1180,
        -1177, -1175, -1172, -1170, -1168, -1165, -1163, -1161, -1158, -1156, -1154,
    ]
}

/// Continuation of `tangent_samples_0`.
pub(crate) fn tangent_samples_4() -> [i32; 571] {
    [
        -1151, -1149, -1147, -1144, -1142, -1140, -1137, -1135, -1133, -1131, -1128, -1126, -1124, -1121, -1119, -1117,
        -1115, -1112, -1110, -1108, -1106, -1104, -1101, -1099, -1097, -1095, -1093, -1090, -1088, -1086, -1084, -1082,
        -1079, -1077, -1075, -1073, -1071, -1069, -1067, -1064, -1062, -1060, -1058, -1056, -1054, -1052, -1050, -1047,
        -1045, -1043, -1041, -1039, -1037, -1035, -1033, -1031, -1029, -1027, -1025, -1023, -1021, -1019, -1017, -1014,
        -1012, -1010, -1008, -1006, -1004, -1002, -1000, -998, -996, -994, -992, -990, -988, -986, -985, -983,
        -981, -979, -977, -975, -973, -971, -969, -967, -965, -963, -961, -959, -957, -955, -953, -952,
        -950, -948, -946, -944, -942, -940, -938, -936, -935, -933, -931, -929, -927, -925, -923, -922,
        -920, -918, -916, -914, -912, -911, -909, -907, -905, -903, -901, -900, -898, -896, -894, -892,
        -891, -889, -887, -885, -883, -882, -880, -878, -876, -875, -873, -871, -869, -868, -866, -864,
        -862, -861, -859, -857, -855, -854, -852, -850, -848, -847, -845, -843, -842, -840, -838, -836,
        -835, -833, -831, -830, -828, -826, -825, -823, -821, -820, -818, -816, -815, -813, -811, -810,
        -808, -806, -805, -803, -801, -800, -798, -796, -795, -793, -792, -790, -788, -787, -785, -783,
        -782, -780, -779, -777, -775, -774, -772, -771, -769, -767, -766, -764, -763, -761, -760, -758,
        -756, -755, -753, -752, -750, -749, -747, -745, -744, -742, -741, -739, -738, -736, -735, -733,
        -732, -730, -728, -727, -725, -724, -722, -721, -719, -718, -716, -715, -713, -712, -710, -709,
        -707, -706, -704, -703, -701, -700, -698, -697, -695, -694, -692, -691, -689, -688, -686, -685,
        -684, -682, -681, -679, -678, -676, -675, -673, -672, -670, -669, -668, -666, -665, -663, -662,
        -660, -659, -657, -656, -655, -653, -652, -650, -649, -647, -646, -645, -643, -642, -640, -639,
        -638, -636, -635, -633, -632, -631, -629, -628, -626, -625, -624, -622, -621, -619, -618, -617,
        -615, -614, -613, -611, -610, -608, -607, -606, -604, -603, -602, -600, -599, -598, -596, -595,
        -593, -592, -591, -589, -588, -587, -585, -584, -583, -581, -580, -579, -577, -576, -575, -573,
        -572, -571, -569, -568, -567, -565, -564, -563, -561, -560, -559, -558, -556, -555, -554, -552,
        -551, -550, -548, -547, -546, -544, -543, -542, -541, -539, -538, -537, -535, -534, -533, -532,
        -530, -529, -528, -526, -525, -524, -523, -521, -520, -519, -518, -516, -515, -514, -512, -511,
        -510, -509, -507, -506, -505, -504, -502, -501, -500, -499, -497, -496, -495, -494, -492, -491,
        -490, -489, -487, -486, -485, -484, -483, -481, -480, -479, -478, -476, -475, -474, -473, -472,
        -470, -469, -468, -467, -465, -464, -463, -462, -461, -459, -458, -457, -456, -455, -453, -452,
        -451, -450, -448, -447, -446, -445, -444, -442, -441, -440, -439, -438, -437, -435, -434, -433,
        -432, -431, -429, -428, -427, -426, -425, -423, -422, -421, -420, -419, -418, -416, -415, -414,
        -413, -412, -411, -409, -408, -407, -406, -405, -404, -402, -401, -400, -399, -398, -397, -395,
        -394, -393, -392, -391, -390, -389, -387, -386, -385, -384, -383, -382, -381, -379, -378, -377,
        -376, -375, -374, -373, -371, -370, -369, -368, -367, -366, -365, -363, -362, -361, -360, -359,
        -358, -357, -356, -354, -353, -352, -351, -350, -349, -348, -347, -345, -344, -343, -342, -341,
        -340, -339, -338, -336, -335, -334, -333, -332, -331, -330, -329, -328, -327, -325, -324, -323,
        -322, -321, -320, -319, -318, -317, -315, -314, -313, -312, -311, -310, -309, -308, -307, -306,
        -305, -303, -302, -301, -300, -299, -298, -297, -296, -295, -294,
    ]
}

/// Continuation of `tangent_samples_0`.
pub(crate) fn tangent_samples_5() -> [i32; 571] {
    [
        -293, -291, -290, -289, -288, -287, -286, -285, -284, -283, -282, -281, -280, -278, -277, -276,
        -275, -274, -273, -272, -271, -270, -269, -268, -267, -266, -265, -263, -262, -261, -260, -259,
        -258, -257, -256, -255, -254, -253, -252, -251, -250, -249, -247, -246, -245, -244, -243, -242,
        -241, -240, -239, -238, -237, -236, -235, -234, -233, -232, -231, -229, -228, -227, -226, -225,
        -224, -223, -222, -221, -220, -219, -218, -217, -216, -215, -214, -213, -212, -211, -210, -209,
        -207, -206, -205, -204, -203, -202, -201, -200, -199, -198, -197, -196, -195, -194, -193, -192,
        -191, -190, -189, -188, -187, -186, -185, -184, -183, -182, -181, -179, -178, -177, -176, -175,
        -174, -173, -172, -171, -170, -169, -168, -167, -166, -165, -164, -163, -162, -161, -160, -159,
        -158, -157, -156, -155, -154, -153, -152, -151, -150, -149, -148, -147, -146, -145, -144, -143,
        -142, -141, -139, -138, -137, -136, -135, -134, -133, -132, -131, -130, -129, -128, -127, -126,
        -125, -124, -123, -122, -121, -120, -119, -118, -117, -116, -115, -114, -113, -112, -111, -110,
        -109, -108, -107, -106, -105, -104, -103, -102, -101, -100, -99, -98, -97, -96, -95, -94,
        -93, -92, -91, -90, -89, -88, -87, -86, -85, -84, -83, -82, -81, -80, -79, -78,
        -77, -76, -75, -74, -73, -72, -71, -70, -69, -68, -67, -66, -65, -64, -63, -62,
        -61, -60, -59, -58, -57, -56, -55, -54, -53, -52, -51, -50, -49, -48, -47, -46,
        -45, -44, -43, -42, -41, -40, -39, -38, -37, -36, -35, -34, -33, -32, -31, -30,
        -29, -28, -27, -26, -25, -24, -23, -22, -21, -20, -19, -18, -17, -16, -15, -14,
        -13, -12, -11, -10, -9, -8, -7, -6, -5, -4, -3, -2, -1, 0, 1, 2,
        3, 4, 5, 6, 7, 8, 9, 10, 11, 12, 13, 14, 15, 16, 17, 18,
        19, 20, 21, 22, 23, 24, 25, 26, 27, 28, 29, 30, 31, 32, 33, 34,
        35, 36, 37, 38, 39, 40, 41, 42, 43, 44, 45, 46, 47, 48, 49, 50,
        51, 52, 53, 54, 55, 56, 57, 58, 59, 60, 61, 62, 63, 64, 66, 67,
        68, 69, 70, 71, 72, 73, 74, 75, 76, 77, 78, 79, 80, 81, 82, 83,
        84, 85, 86, 87, 88, 89, 90, 91, 92, 93, 94, 95, 96, 97, 98, 99,
        100, 101, 102, 103, 104, 105, 106, 107, 108, 109, 110, 111, 112, 113, 114, 115,
        116, 117, 118, 119, 120, 121, 122, 123, 124, 125, 126, 127, 128, 129, 130, 131,
        132, 133, 134, 135, 136, 137, 138, 139, 140, 141, 142, 143, 144, 145, 146, 147,
        148, 150, 151, 152, 153, 154, 155, 156, 157, 158, 159, 160, 161, 162, 163, 164,
        165, 166, 167, 168, 169, 170, 171, 172, 173, 174, 175, 176, 177, 178, 179, 180,
        181, 182, 183, 184, 185, 187, 188, 189, 190, 191, 192, 193, 194, 195, 196, 197,
        198, 199, 200, 201, 202, 203, 204, 205, 206, 207, 208, 209, 210, 211, 213, 214,
        215, 216, 217, 218, 219, 220, 221, 222, 223, 224, 225, 226, 227, 228, 229, 230,
        231, 232, 234, 235, 236, 237, 238, 239, 240, 241, 242, 243, 244, 245, 246, 247,
        248, 249, 250, 252, 253, 254, 255, 256, 257, 258, 259, 260, 261, 262, 263, 264,
        265, 266, 268, 269, 270, 271, 272, 273, 274, 275, 276, 277, 278, 279, 280, 282,
        283, 284, 285, 286, 287, 288, 289, 290, 291, 292, 293,
    ]
}

/// Continuation of `tangent_samples_0`.
pub(crate) fn tangent_samples_6() -> [i32; 571] {
    [
        295, 296, 297, 298, 299, 300, 301, 302, 303, 304, 305, 306, 308, 309, 310, 311,
        312, 313, 314, 315, 316, 317, 319, 320, 321, 322, 323, 324, 325, 326, 327, 329,
        330, 331, 332, 333, 334, 335, 336, 337, 339, 340, 341, 342, 343, 344, 345, 346,
        347, 349, 350, 351, 352, 353, 354, 355, 356, 358, 359, 360, 361, 362, 363, 364,
        365, 367, 368, 369, 370, 371, 372, 373, 375, 376, 377, 378, 379, 380, 381, 383,
        384, 385, 386, 387, 388, 389, 391, 392, 393, 394, 395, 396, 398, 399, 400, 401,
        402, 403, 405, 406, 407, 408, 409, 410, 412, 413, 414, 415, 416, 417, 419, 420,
        421, 422, 423, 424, 426, 427, 428, 429, 430, 432, 433, 434, 435, 436, 437, 439,
        440, 441, 442, 443, 445, 446, 447, 448, 449, 451, 452, 453, 454, 455, 457, 458,
        459, 460, 462, 463, 464, 465, 466, 468, 469, 470, 471, 473, 474, 475, 476, 477,
        479, 480, 481, 482, 484, 485, 486, 487, 489, 490, 491, 492, 493, 495, 496, 497,
        498, 500, 501, 502, 503, 505, 506, 507, 508, 510, 511, 512, 514, 515, 516, 517,
        519, 520, 521, 522, 524, 525, 526, 528, 529, 530, 531, 533, 534, 535, 536, 538,
        539, 540, 542, 543, 544, 546, 547, 548, 549, 551, 552, 553, 555, 556, 557, 559,
        560, 561, 563, 564, 565, 566, 568, 569, 570, 572, 573, 574, 576, 577, 578, 580,
        581, 582, 584, 585, 586, 588, 589, 591, 592, 593, 595, 596, 597, 599, 600, 601,
        603, 604, 605, 607, 608, 610, 611, 612, 614, 615, 616, 618, 619, 621, 622, 623,
        625, 626, 628, 629, 630, 632, 633, 635, 636, 637, 639, 640, 642, 643, 644, 646,
        647, 649, 650, 651, 653, 654, 656, 657, 659, 660, 661, 663, 664, 666, 667, 669,
        670, 672, 673, 675, 676, 677, 679, 680, 682, 683, 685, 686, 688, 689, 691, 692,
        694, 695, 697, 698, 700, 701, 703, 704, 705, 707, 708, 710, 712, 713, 715, 716,
        718, 719, 721, 722, 724, 725, 727, 728, 730, 731, 733, 734, 736, 737, 739, 741,
        742, 744, 745, 747, 748, 750, 751, 753, 755, 756, 758, 759, 761, 762, 764, 766,
        767, 769, 770, 772, 774, 775, 777, 778, 780, 782, 783, 785, 786, 788, 790, 791,
        793, 795, 796, 798, 799, 801, 803, 804, 806, 808, 809, 811, 813, 814, 816, 818,
        819, 821, 823, 824, 826, 828, 829, 831, 833, 834, 836, 838, 840, 841, 843, 845,
        846, 848, 850, 852, 853, 855, 857, 858, 860, 862, 864, 865, 867, 869, 871, 872,
        874, 876, 878, 880, 881, 883, 885, 887, 888, 890, 892, 894, 896, 897, 899, 901,
        903, 905, 907, 908, 910, 912, 914, 916, 918, 919, 921, 923, 925, 927, 929, 930,
        932, 934, 936, 938, 940, 942, 944, 946, 947, 949, 951, 953, 955, 957, 959, 961,
        963, 965, 967, 969, 970, 972, 974, 976, 978, 980, 982, 984, 986, 988, 990, 992,
        994, 996, 998, 1000, 1002, 1004, 1006, 1008, 1010, 1012, 1014, 1016, 1018, 1020, 1022, 1024,
        1026, 1028, 1030, 1033, 1035, 1037, 1039, 1041, 1043, 1045, 1047, 1049, 1051, 1053, 1056, 1058,
        1060, 1062, 1064, 1066, 1068, 1070, 1073, 1075, 1077, 1079, 1081, 1083, 1086, 1088, 1090, 1092,
        1094, 1097, 1099, 1101, 1103, 1105, 1108, 1110, 1112, 1114, 1117, 1119, 1121, 1123, 1126, 1128,
        1130, 1132, 1135, 1137, 1139, 1142, 1144, 1146, 1149, 1151, 1153,
    ]
}

/// Continuation of `tangent_samples_0`.
pub(crate) fn tangent_samples_7() -> [i32; 571] {
    [
        1155, 1158, 1160, 1163, 1165, 1167, 1170, 1172, 1174, 1177, 1179, 1182, 1184, 1186, 1189, 1191,
        1194, 1196, 1198, 1201, 1203, 1206, 1208, 1211, 1213, 1216, 1218, 1221, 1223, 1226, 1228, 1231,
        1233, 1236, 1238, 1241, 1243, 1246, 1248, 1251, 1253, 1256, 1259, 1261, 1264, 1266, 1269, 1272,
        1274, 1277, 1280, 1282, 1285, 1287, 1290, 1293, 1295, 1298, 1301, 1304, 1306, 1309, 1312, 1314,
        1317, 1320, 1323, 1325, 1328, 1331, 1334, 1336, 1339, 1342, 1345, 1348, 1350, 1353, 1356, 1359,
        1362, 1365, 1368, 1370, 1373, 1376, 1379, 1382, 1385, 1388, 1391, 1394, 1397, 1400, 1403, 1406,
        1409, 1411, 1414, 1417, 1421, 1424, 1427, 1430, 1433, 1436, 1439, 1442, 1445, 1448, 1451, 1454,
        1457, 1460, 1464, 1467, 1470, 1473, 1476, 1479, 1483, 1486, 1489, 1492, 1496, 1499, 1502, 1505,
        1509, 1512, 1515, 1518, 1522, 1525, 1528, 1532, 1535, 1538, 1542, 1545, 1549, 1552, 1555, 1559,
        1562, 1566, 1569, 1573, 1576, 1580, 1583, 1587, 1590, 1594, 1597, 1601, 1604, 1608, 1611, 1615,
        1619, 1622, 1626, 1630, 1633, 1637, 1641, 1644, 1648, 1652, 1656, 1659, 1663, 1667, 1671, 1674,
        1678, 1682, 1686, 1690, 1694, 1697, 1701, 1705, 1709, 1713, 1717, 1721, 1725, 1729, 1733, 1737,
        1741, 1745, 1749, 1753, 1757, 1761, 1765, 1769, 1774, 1778, 1782, 1786, 1790, 1795, 1799, 1803,
        1807, 1812, 1816, 1820, 1824, 1829, 1833, 1838, 1842, 1846, 1851, 1855, 1860, 1864, 1869, 1873,
        1878, 1882, 1887, 1891, 1896, 1900, 1905, 1910, 1914, 1919, 1924, 1928, 1933, 1938, 1943, 1947,
        1952, 1957, 1962, 1967, 1972, 1977, 1981, 1986, 1991, 1996, 2001, 2006, 2011, 2016, 2021, 2027,
        2032, 2037, 2042, 2047, 2052, 2058, 2063, 2068, 2073, 2079, 2084, 2089, 2095, 2100, 2106, 2111,
        2116, 2122, 2128, 2133, 2139, 2144, 2150, 2155, 2161, 2167, 2172, 2178, 2184, 2190, 2196, 2201,
        2207, 2213, 2219, 2225, 2231, 2237, 2243, 2249, 2255, 2261, 2267, 2273, 2280, 2286, 2292, 2298,
        2305, 2311, 2317, 2324, 2330, 2337, 2343, 2350, 2356, 2363, 2369, 2376, 2383, 2389, 2396, 2403,
        2410, 2416, 2423, 2430, 2437, 2444, 2451, 2458, 2465, 2472, 2479, 2486, 2494, 2501, 2508, 2515,
        2523, 2530, 2538, 2545, 2553, 2560, 2568, 2575, 2583, 2591, 2598, 2606, 2614, 2622, 2630, 2638,
        2646, 2654, 2662, 2670, 2678, 2686, 2694, 2703, 2711, 2719, 2728, 2736, 2745, 2753, 2762, 2771,
        2779, 2788, 2797, 2806, 2815, 2823, 2832, 2842, 2851, 2860, 2869, 2878, 2888, 2897, 2906, 2916,
        2925, 2935, 2945, 2954, 2964, 2974, 2984, 2994, 3004, 3014, 3024, 3034, 3044, 3054, 3065, 3075,
        3086, 3096, 3107, 3118, 3128, 3139, 3150, 3161, 3172, 3183, 3194, 3206, 3217, 3228, 3240, 3251,
        3263, 3275, 3286, 3298, 3310, 3322, 3334, 3346, 3359, 3371, 3383, 3396, 3408, 3421, 3434, 3447,
        3460, 3473, 3486, 3499, 3512, 3525, 3539, 3553, 3566, 3580, 3594, 3608, 3622, 3636, 3650, 3665,
        3679, 3694, 3708, 3723, 3738, 3753, 3768, 3784, 3799, 3814, 3830, 3846, 3862, 3878, 3894, 3910,
        3926, 3943, 3959, 3976, 3993, 4010, 4027, 4044, 4062, 4079, 4097, 4115, 4133, 4151, 4170, 4188,
        4207, 4225, 4244, 4263, 4283, 4302, 4322, 4341, 4361, 4381, 4402, 4422, 4443, 4464, 4485, 4506,
        4527, 4549, 4571, 4593, 4615, 4637, 4660, 4683, 4706, 4729, 4753, 4776, 4800, 4824, 4849, 4873,
        4898, 4923, 4949, 4974, 5000, 5026, 5053, 5079, 5106, 5134, 5161, 5189, 5217, 5245, 5274, 5303,
        5332, 5362, 5392, 5422, 5452, 5483, 5515, 5546, 5578, 5610, 5643, 5676, 5709, 5743, 5777, 5812,
        5847, 5882, 5918, 5954, 5991, 6028, 6066, 6104, 6142, 6181, 6221, 6261, 6301, 6342, 6384, 6426,
        6468, 6511, 6555, 6599, 6644, 6690, 6736, 6782, 6830, 6878, 6926,
    ]
}

/// Continuation of `tangent_samples_0`.
pub(crate) fn tangent_samples_8() -> [i32; 571] {
    [
        6975, 7025, 7076, 7128, 7180, 7233, 7286, 7341, 7396, 7452, 7509, 7567, 7626, 7685, 7746, 7807,
        7870, 7933, 7998, 8063, 8130, 8197, 8266, 8336, 8407, 8480, 8553, 8628, 8704, 8781, 8860, 8940,
        9022, 9105, 9190, 9276, 9364, 9454, 9545, 9638, 9733, 9829, 9928, 10028, 10131, 10236, 10342, 10452,
        10563, 10677, 10793, 10912, 11033, 11157, 11284, 11414, 11547, 11683, 11822, 11964, 12110, 12260, 12413, 12570,
        12731, 12896, 13065, 13239, 13418, 13602, 13790, 13984, 14183, 14388, 14599, 14817, 15041, 15271, 15509, 15754,
        16008, 16269, 16539, 16818, 17107, 17406, 17715, 18036, 18368, 18713, 19071, 19442, 19829, 20231, 20650, 21086,
        21541, 22017, 22513, 23033, 23577, 24147, 24746, 25375, 26036, 26733, 27469, 28246, 29068, 29939, 30864, 31848,
        32897, 34017, 35215, 36502, 37886, 39379, 40994, 42747, 44657, 46746, 49039, 51569, 54374, 57502, 61011, 64976,
        69493, 74684, 80713, 87800, 96252, 106505, 119201, 135334, 156517, 185562, 227842, 295073, 418588, 719952, 2570824, -1636608,
        -620724, -382991, -276929, -216870, -178219, -151260, -131386, -116127, -104044, -94238, -86121, -79292, -73465, -68437, -64052, -60195,
        -56777, -53725, -50985, -48511, -46265, -44219, -42345, -40624, -39037, -37570, -36208, -34942, -33761, -32658, -31624, -30654,
        -29741, -28881, -28069, -27302, -26575, -25886, -25232, -24610, -24018, -23454, -22915, -22401, -21909, -21439, -20988, -20555,
        -20140, -19742, -19359, -18990, -18635, -18293, -17964, -17646, -17339, -17042, -16756, -16478, -16210, -15951, -15699, -15456,
        -15219, -14990, -14768, -14552, -14342, -14139, -13940, -13748, -13560, -13378, -13200, -13027, -12859, -12695, -12535, -12378,
        -12226, -12077, -11932, -11791, -11652, -11517, -11385, -11256, -11129, -11006, -10885, -10767, -10651, -10538, -10427, -10319,
        -10212, -10108, -10006, -9906, -9808, -9711, -9617, -9524, -9433, -9344, -9257, -9171, -9087, -9004, -8922, -8843,
        -8764, -8687, -8611, -8537, -8463, -8391, -8321, -8251, -8182, -8115, -8049, -7983, -7919, -7856, -7794, -7732,
        -7672, -7613, -7554, -7497, -7440, -7384, -7329, -7274, -7221, -7168, -7116, -7065, -7014, -6964, -6915, -6867,
        -6819, -6772, -6725, -6679, -6634, -6589, -6545, -6502, -6459, -6416, -6374, -6333, -6292, -6252, -6212, -6173,
        -6134, -6095, -6057, -6020, -5983, -5946, -5910, -5874, -5839, -5804, -5770, -5736, -5702, -5669, -5636, -5603,
        -5571, -5539, -5508, -5476, -5446, -5415, -5385, -5355, -5326, -5296, -5267, -5239, -5211, -5183, -5155, -5127,
        -5100, -5073, -5047, -5020, -4994, -4969, -4943, -4918, -4893, -4868, -4843, -4819, -4795, -4771, -4747, -4724,
        -4701, -4678, -4655, -4632, -4610, -4588, -4566, -4544, -4523, -4501, -4480, -4459, -4438, -4418, -4397, -4377,
        -4357, -4337, -4317, -4298, -4278, -4259, -4240, -4221, -4202, -4184, -4165, -4147, -4129, -4111, -4093, -4076,
        -4058, -4041, -4023, -4006, -3989, -3972, -3956, -3939, -3923, -3906, -3890, -3874, -3858, -3842, -3827, -3811,
        -3796, -3780, -3765, -3750, -3735, -3720, -3705, -3691, -3676, -3661, -3647, -3633, -3619, -3605, -3591, -3577,
        -3563, -3550, -3536, -3523, -3509, -3496, -3483, -3470, -3457, -3444, -3431, -3418, -3406, -3393, -3381, -3368,
        -3356, -3344, -3331, -3319, -3307, -3296, -3284, -3272, -3260, -3249, -3237, -3226, -3214, -3203, -3192, -3181,
        -3170, -3159, -3148, -3137, -3126, -3115, -3105, -3094, -3083, -3073, -3063, -3052, -3042, -3032, -3022, -3011,
        -3001, -2991, -2981, -2972, -2962, -2952, -2942, -2933, -2923, -2914, -2904, -2895, -2885, -2876, -2867, -2858,
        -2849, -2839, -2830, -2821, -2813, -2804, -2795, -2786, -2777, -2769, -2760, -2751, -2743, -2734, -2726, -2717,
        -2709, -2701, -2693, -2684, -2676, -2668, -2660, -2652, -2644, -2636, -2628, -2620, -2612, -2604, -2597, -2589,
        -2581, -2574, -2566, -2558, -2551, -2543, -2536, -2529, -2521, -2514, -2507, -2499, -2492, -2485, -2478, -2471,
        -2463, -2456, -2449, -2442, -2435, -2429, -2422, -2415, -2408, -2401, -2394, -2388, -2381, -2374, -2368, -2361,
        -2355, -2348, -2342, -2335, -2329, -2322, -2316, -2310, -2303, -2297, -2291, -2284, -2278, -2272, -2266, -2260,
        -2254, -2248, -2242, -2236, -2230, -2224, -2218, -2212, -2206, -2200, -2194,
    ]
}

/// Continuation of `tangent_samples_0`.
pub(crate) fn tangent_samples_9() -> [i32; 571] {
    [
        -2188, -2183, -2177, -2171, -2166, -2160, -2154, -2149, -2143, -2137, -2132, -2126, -2121, -2115, -2110, -2104,
        -2099, -2094, -2088, -2083, -2078, -2072, -2067, -2062, -2056, -2051, -2046, -2041, -2036, -2031, -2025, -2020,
        -2015, -2010, -2005, -2000, -1995, -1990, -1985, -1980, -1975, -1971, -1966, -1961, -1956, -1951, -1946, -1942,
        -1937, -1932, -1927, -1923, -1918, -1913, -1909, -1904, -1899, -1895, -1890, -1886, -1881, -1877, -1872, -1868,
        -1863, -1859, -1854, -1850, -1845, -1841, -1837, -1832, -1828, -1823, -1819, -1815, -1811, -1806, -1802, -1798,
        -1794, -1789, -1785, -1781, -1777, -1773, -1769, -1764, -1760, -1756, -1752, -1748, -1744, -1740, -1736, -1732,
        -1728, -1724, -1720, -1716, -1712, -1708, -1704, -1700, -1697, -1693, -1689, -1685, -1681, -1677, -1674, -1670,
        -1666, -1662, -1658, -1655, -1651, -1647, -1644, -1640, -1636, -1632, -1629, -1625, -1622, -1618, -1614, -1611,
        -1607, -1604, -1600, -1596, -1593, -1589, -1586, -1582, -1579, -1575, -1572, -1568, -1565, -1561, -1558, -1555,
        -1551, -1548, -1544, -1541, -1538, -1534, -1531, -1528, -1524, -1521, -1518, -1514, -1511, -1508, -1505, -1501,
        -1498, -1495, -1492, -1488, -1485, -1482, -1479, -1476, -1472, -1469, -1466, -1463, -1460, -1457, -1454, -1450,
        -1447, -1444, -1441, -1438, -1435, -1432, -1429, -1426, -1423, -1420, -1417, -1414, -1411, -1408, -1405, -1402,
        -1399, -1396, -1393, -1390, -1387, -1384, -1381, -1378, -1376, -1373, -1370, -1367, -1364, -1361, -1358, -1355,
        -1353, -1350, -1347, -1344, -1341, -1339, -1336, -1333, -1330, -1327, -1325, -1322, -1319, -1316, -1314, -1311,
        -1308, -1306, -1303, -1300, -1298, -1295, -1292, -1290, -1287, -1284, -1282, -1279, -1276, -1274, -1271, -1268,
        -1266, -1263, -1261, -1258, -1255, -1253, -1250, -1248, -1245, -1243, -1240, -1238, -1235, -1233, -1230, -1228,
        -1225, -1223, -1220, -1218, -1215, -1213, -1210, -1208, -1205, -1203, -1200, -1198, -1195, -1193, -1191, -1188,
        -1186, -1183, -1181, -1179, -1176, -1174, -1171, -1169, -1167, -1164, -1162, -1160, -1157, -1155, -1153, -1150,
        -1148, -1146, -1143, -1141, -1139, -1136, -1134, -1132, -1130, -1127, -1125, -1123, -1121, -1118, -1116, -1114,
        -1112, -1109, -1107, -1105, -1103, -1100, -1098, -1096, -1094, -1092, -1089, -1087, -1085, -1083, -1081, -1079,
        -1076, -1074, -1072, -1070, -1068, -1066, -1064, -1061, -1059, -1057, -1055, -1053, -1051, -1049, -1047, -1045,
        -1042, -1040, -1038, -1036, -1034, -1032, -1030, -1028, -1026, -1024, -1022, -1020, -1018, -1016, -1014, -1012,
        -1010, -1008, -1006, -1004, -1002, -1000, -998, -996, -994, -992, -990, -988, -986, -984, -982, -980,
        -978, -976, -974, -972, -970, -968, -966, -964, -962, -960, -958, -957, -955, -953, -951, -949,
        -947, -945, -943, -941, -939, -938, -936, -934, -932, -930, -928, -926, -924, -923, -921, -919,
        -917, -915, -913, -912, -910, -908, -906, -904, -902, -901, -899, -897, -895, -893, -892, -890,
        -888, -886, -885, -883, -881, -879, -877, -876, -874, -872, -870, -869, -867, -865, -863, -862,
        -860, -858, -856, -855, -853, -851, -849, -848, -846, -844, -843, -841, -839, -837, -836, -834,
        -832, -831, -829, -827, -826, -824, -822, -821, -819, -817, -816, -814, -812, -811, -809, -807,
        -806, -804, -802, -801, -799, -797, -796, -794, -793, -791, -789, -788, -786, -784, -783, -781,
        -780, -778, -776, -775, -773, -772, -770, -768, -767, -765, -764, -762, -760, -759, -757, -756,
        -754, -753, -751, -750, -748, -746, -745, -743, -742, -740, -739, -737, -736, -734, -732, -731,
        -729, -728, -726, -725, -723, -722, -720, -719, -717, -716, -714, -713, -711, -710, -708, -707,
        -705, -704, -702, -701, -699, -698, -696, -695, -693, -692, -690, -689, -687, -686, -684, -683,
        -681, -680, -679, -677, -676, -674, -673, -671, -670, -668, -667, -665, -664, -663, -661, -660,
        -658, -657, -655, -654, -653, -651, -650, -648, -647, -645, -644,
    ]
}

/// Continuation of `tangent_samples_0`.
pub(crate) fn tangent_samples_10() -> [i32; 571] {
    [
        -643, -641, -640, -638, -637, -636, -634, -633, -631, -630, -629, -627, -626, -624, -623, -622,
        -620, -619, -617, -616, -615, -613, -612, -611, -609, -608, -607, -605, -604, -602, -601, -600,
        -598, -597, -596, -594, -593, -592, -590, -589, -588, -586, -585, -583, -582, -581, -579, -578,
        -577, -575, -574, -573, -571, -570, -569, -568, -566, -565, -564, -562, -561, -560, -558, -557,
        -556, -554, -553, -552, -550, -549, -548, -547, -545, -544, -543, -541, -540, -539, -537, -536,
        -535, -534, -532, -531, -530, -528, -527, -526, -525, -523, -522, -521, -520, -518, -517, -516,
        -515, -513, -512, -511, -509, -508, -507, -506, -504, -503, -502, -501, -499, -498, -497, -496,
        -494, -493, -492, -491, -489, -488, -487, -486, -485, -483, -482, -481, -480, -478, -477, -476,
        -475, -473, -472, -471, -470, -469, -467, -466, -465, -464, -462, -461, -460, -459, -458, -456,
        -455, -454, -453, -452, -450, -449, -448, -447, -446, -444, -443, -442, -441, -440, -438, -437,
        -436, -435, -434, -432, -431, -430, -429, -428, -427, -425, -424, -423, -422, -421, -419, -418,
        -417, -416, -415, -414, -412, -411, -410, -409, -408, -407, -405, -404, -403, -402, -401, -400,
        -398, -397, -396, -395, -394, -393, -392, -390, -389, -388, -387, -386, -385, -383, -382, -381,
        -380, -379, -378, -377, -375, -374, -373, -372, -371, -370, -369, -368, -366, -365, -364, -363,
        -362, -361, -360, -358, -357, -356, -355, -354, -353, -352, -351, -349, -348, -347, -346, -345,
        -344, -343, -342, -340, -339, -338, -337, -336, -335, -334, -333, -332, -330, -329, -328, -327,
        -326, -325, -324, -323, -322, -321, -319, -318, -317, -316, -315, -314, -313, -312, -311, -310,
        -308, -307, -306, -305, -304, -303, -302, -301, -300, -299, -298, -296, -295, -294, -293, -292,
        -291, -290, -289, -288, -287, -286, -285, -283, -282, -281, -280, -279, -278, -277, -276, -275,
        -274, -273, -272, -271, -269, -268, -267, -266, -265, -264, -263, -262, -261, -260, -259, -258,
        -257, -256, -254, -253, -252, -251, -250, -249, -248, -247, -246, -245, -244, -243, -242, -241,
        -240, -239, -238, -236, -235, -234, -233, -232, -231, -230, -229, -228, -227, -226, -225, -224,
        -223, -222, -221, -220, -219, -218, -216, -215, -214, -213, -212, -211, -210, -209, -208, -207,
        -206, -205, -204, -203, -202, -201, -200, -199, -198, -197, -196, -195, -194, -193, -191, -190,
        -189, -188, -187, -186, -185, -184, -183, -182, -181, -180, -179, -178, -177, -176, -175, -174,
        -173, -172, -171, -170, -169, -168, -167, -166, -165, -164, -163, -162, -161, -160, -158, -157,
        -156, -155, -154, -153, -152, -151, -150, -149, -148, -147, -146, -145, -144, -143, -142, -141,
        -140, -139, -138, -137, -136, -135, -134, -133, -132, -131, -130, -129, -128, -127, -126, -125,
        -124, -123, -122, -121, -120, -119, -118, -117, -116, -115, -114, -113, -112, -111, -110, -109,
        -108, -107, -106, -105, -104, -103, -102, -101, -100, -99, -97, -96, -95, -94, -93, -92,
        -91, -90, -89, -88, -87, -86, -85, -84, -83, -82, -81, -80, -79, -78, -77, -76,
        -75, -74, -73, -72, -71, -70, -69, -68, -67, -66, -65, -64, -63, -62, -61, -60,
        -59, -58, -57, -56, -55, -54, -53, -52, -51, -50, -49, -48, -47, -46, -45, -44,
        -43, -42, -41, -40, -39, -38, -37, -36, -35, -34, -33, -32, -31, -30, -29, -28,
        -27, -26, -25, -24, -23, -22, -21, -20, -19, -18, -17, -16, -15, -14, -13, -12,
        -11, -10, -9, -8, -7, -6, -5, -4, -3, -2, -1,
    ]
}

} // verus!
