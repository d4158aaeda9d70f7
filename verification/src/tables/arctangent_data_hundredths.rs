use vstd::prelude::*;

verus! {

/// Arctangent samples at ratio step `10`: slot `i` holds `atan(i / 100)`
/// in thousandths, rounded to the nearest integer. These cover the
/// nonnegative half of the ratio range; the table for the full range is
/// assembled by mirroring them through the origin.
pub(crate) fn arctangent_samples_hundredths_0() -> [u16; 1001] {
    [
        0, 10, 20, 30, 40, 50, 60, 70, 80, 90, 100, 110, 119, 129, 139, 149,
        159, 168, 178, 188, 197, 207, 217, 226, 236, 245, 254, 264, 273, 282, 291, 301,
        310, 319, 328, 337, 346, 354, 363, 372, 381, 389, 398, 406, 415, 423, 431, 439,
        448, 456, 464, 472, 480, 487, 495, 503, 510, 518, 526, 533, 540, 548, 555, 562,
        569, 576, 583, 590, 597, 604, 611, 617, 624, 631, 637, 644, 650, 656, 662, 669,
        675, 681, 687, 693, 699, 704, 710, 716, 722, 727, 733, 738, 744, 749, 754, 760,
        765, 770, 775, 780, 785, 790, 795, 800, 805, 810, 815, 819, 824, 828, 833, 837,
        842, 846, 851, 855, 859, 864, 868, 872, 876, 880, 884, 888, 892, 896, 900, 904,
        908, 911, 915, 919, 922, 926, 930, 933, 937, 940, 944, 947, 951, 954, 957, 961,
        964, 967, 970, 973, 977, 980, 983, 986, 989, 992, 995, 998, 1001, 1004, 1007, 1009,
        1012, 1015, 1018, 1021, 1023, 1026, 1029, 1031, 1034, 1036, 1039, 1042, 1044, 1047, 1049, 1052,
        1054, 1057, 1059, 1061, 1064, 1066, 1068, 1071, 1073, 1075, 1077, 1080, 1082, 1084, 1086, 1088,
        1091, 1093, 1095, 1097, 1099, 1101, 1103, 1105, 1107, 1109, 1111, 1113, 1115, 1117, 1119, 1121,
        1123, 1125, 1126, 1128, 1130, 1132, 1134, 1135, 1137, 1139, 1141, 1142, 1144, 1146, 1148, 1149,
        1151, 1153, 1154, 1156, 1157, 1159, 1161, 1162, 1164, 1165, 1167, 1168, 1170, 1172, 1173, 1175,
        1176, 1177, 1179, 1180, 1182, 1183, 1185, 1186, 1188, 1189, 1190, 1192, 1193, 1194, 1196, 1197,
        1198, 1200, 1201, 1202, 1204, 1205, 1206, 1207, 1209, 1210, 1211, 1212, 1214, 1215, 1216, 1217,
        1218, 1220, 1221, 1222, 1223, 1224, 1225, 1227, 1228, 1229, 1230, 1231, 1232, 1233, 1234, 1236,
        1237, 1238, 1239, 1240, 1241, 1242, 1243, 1244, 1245, 1246, 1247, 1248, 1249, 1250, 1251, 1252,
        1253, 1254, 1255, 1256, 1257, 1258, 1259, 1260, 1261, 1262, 1262, 1263, 1264, 1265, 1266, 1267,
        1268, 1269, 1270, 1271, 1271, 1272, 1273, 1274, 1275, 1276, 1277, 1277, 1278, 1279, 1280, 1281,
        1282, 1282, 1283, 1284, 1285, 1286, 1286, 1287, 1288, 1289, 1289, 1290, 1291, 1292, 1292, 1293,
        1294, 1295, 1295, 1296, 1297, 1298, 1298, 1299, 1300, 1301, 1301, 1302, 1303, 1303, 1304, 1305,
        1305, 1306, 1307, 1308, 1308, 1309, 1310, 1310, 1311, 1312, 1312, 1313, 1313, 1314, 1315, 1315,
        1316, 1317, 1317, 1318, 1319, 1319, 1320, 1320, 1321, 1322, 1322, 1323, 1323, 1324, 1325, 1325,
        1326, 1326, 1327, 1328, 1328, 1329, 1329, 1330, 1330, 1331, 1332, 1332, 1333, 1333, 1334, 1334,
        1335, 1335, 1336, 1337, 1337, 1338, 1338, 1339, 1339, 1340, 1340, 1341, 1341, 1342, 1342, 1343,
        1343, 1344, 1344, 1345, 1345, 1346, 1346, 1347, 1347, 1348, 1348, 1349, 1349, 1350, 1350, 1351,
        1351, 1352, 1352, 1353, 1353, 1354, 1354, 1354, 1355, 1355, 1356, 1356, 1357, 1357, 1358, 1358,
        1359, 1359, 1359, 1360, 1360, 1361, 1361, 1362, 1362, 1362, 1363, 1363, 1364, 1364, 1365, 1365,
        1365, 1366, 1366, 1367, 1367, 1367, 1368, 1368, 1369, 1369, 1369, 1370, 1370, 1371, 1371, 1371,
        1372, 1372, 1373, 1373, 1373, 1374, 1374, 1375, 1375, 1375, 1376, 1376, 1376, 1377, 1377, 1378,
        1378, 1378, 1379, 1379, 1379, 1380, 1380, 1380, 1381, 1381, 1382, 1382, 1382, 1383, 1383, 1383,
        1384, 1384, 1384, 1385, 1385, 1385, 1386, 1386, 1386, 1387, 1387, 1387, 1388, 1388, 1388, 1389,
        1389, 1389, 1390, 1390, 1390, 1391, 1391, 1391, 1392, 1392, 1392, 1393, 1393, 1393, 1393, 1394,
        1394, 1394, 1395, 1395, 1395, 1396, 1396, 1396, 1397, 1397, 1397, 1397, 1398, 1398, 1398, 1399,
        1399, 1399, 1399, 1400, 1400, 1400, 1401, 1401, 1401, 1401, 1402, 1402, 1402, 1403, 1403, 1403,
        1403, 1404, 1404, 1404, 1405, 1405, 1405, 1405, 1406, 1406, 1406, 1406, 1407, 1407, 1407, 1408,
        1408, 1408, 1408, 1409, 1409, 1409, 1409, 1410, 1410, 1410, 1410, 1411, 1411, 1411, 1411, 1412,
        1412, 1412, 1412, 1413, 1413, 1413, 1413, 1414, 1414, 1414, 1414, 1415, 1415, 1415, 1415, 1416,
        1416, 1416, 1416, 1417, 1417, 1417, 1417, 1417, 1418, 1418, 1418, 1418, 1419, 1419, 1419, 1419,
        1420, 1420, 1420, 1420, 1420, 1421, 1421, 1421, 1421, 1422, 1422, 1422, 1422, 1422, 1423, 1423,
        1423, 1423, 1424, 1424, 1424, 1424, 1424, 1425, 1425, 1425, 1425, 1425, 1426, 1426, 1426, 1426,
        1426, 1427, 1427, 1427, 1427, 1427, 1428, 1428, 1428, 1428, 1428, 1429, 1429, 1429, 1429, 1429,
        1430, 1430, 1430, 1430, 1430, 1431, 1431, 1431, 1431, 1431, 1432, 1432, 1432, 1432, 1432, 1433,
        1433, 1433, 1433, 1433, 1434, 1434, 1434, 1434, 1434, 1434, 1435, 1435, 1435, 1435, 1435, 1436,
        1436, 1436, 1436, 1436, 1436, 1437, 1437, 1437, 1437, 1437, 1438, 1438, 1438, 1438, 1438, 1438,
        1439, 1439, 1439, 1439, 1439, 1439, 1440, 1440, 1440, 1440, 1440, 1440, 1441, 1441, 1441, 1441,
        1441, 1441, 1442, 1442, 1442, 1442, 1442, 1442, 1443, 1443, 1443, 1443, 1443, 1443, 1444, 1444,
        1444, 1444, 1444, 1444, 1445, 1445, 1445, 1445, 1445, 1445, 1446, 1446, 1446, 1446, 1446, 1446,
        1446, 1447, 1447, 1447, 1447, 1447, 1447, 1448, 1448, 1448, 1448, 1448, 1448, 1448, 1449, 1449,
        1449, 1449, 1449, 1449, 1449, 1450, 1450, 1450, 1450, 1450, 1450, 1450, 1451, 1451, 1451, 1451,
        1451, 1451, 1451, 1452, 1452, 1452, 1452, 1452, 1452, 1452, 1453, 1453, 1453, 1453, 1453, 1453,
        1453, 1454, 1454, 1454, 1454, 1454, 1454, 1454, 1455, 1455, 1455, 1455, 1455, 1455, 1455, 1455,
        1456, 1456, 1456, 1456, 1456, 1456, 1456, 1456, 1457, 1457, 1457, 1457, 1457, 1457, 1457, 1458,
        1458, 1458, 1458, 1458, 1458, 1458, 1458, 1459, 1459, 1459, 1459, 1459, 1459, 1459, 1459, 1460,
        1460, 1460, 1460, 1460, 1460, 1460, 1460, 1461, 1461, 1461, 1461, 1461, 1461, 1461, 1461, 1461,
        1462, 1462, 1462, 1462, 1462, 1462, 1462, 1462, 1463, 1463, 1463, 1463, 1463, 1463, 1463, 1463,
        1463, 1464, 1464, 1464, 1464, 1464, 1464, 1464, 1464, 1464, 1465, 1465, 1465, 1465, 1465, 1465,
        1465, 1465, 1465, 1466, 1466, 1466, 1466, 1466, 1466, 1466, 1466, 1466, 1467, 1467, 1467, 1467,
        1467, 1467, 1467, 1467, 1467, 1468, 1468, 1468, 1468, 1468, 1468, 1468, 1468, 1468, 1468, 1469,
        1469, 1469, 1469, 1469, 1469, 1469, 1469, 1469, 1470, 1470, 1470, 1470, 1470, 1470, 1470, 1470,
        1470, 1470, 1471, 1471, 1471, 1471, 1471, 1471, 1471,
    ]
}

/// Continuation of `arctangent_samples_hundredths_0`.
pub(crate) fn arctangent_samples_hundredths_1() -> [u16; 1000] {
    [
        1471, 1471, 1471, 1472, 1472, 1472, 1472, 1472, 1472, 1472, 1472, 1472, 1472, 1472, 1473, 1473,
        1473, 1473, 1473, 1473, 1473, 1473, 1473, 1473, 1474, 1474, 1474, 1474, 1474, 1474, 1474, 1474,
        1474, 1474, 1474, 1475, 1475, 1475, 1475, 1475, 1475, 1475, 1475, 1475, 1475, 1475, 1476, 1476,
        1476, 1476, 1476, 1476, 1476, 1476, 1476, 1476, 1476, 1477, 1477, 1477, 1477, 1477, 1477, 1477,
        1477, 1477, 1477, 1477, 1478, 1478, 1478, 1478, 1478, 1478, 1478, 1478, 1478, 1478, 1478, 1478,
        1479, 1479, 1479, 1479, 1479, 1479, 1479, 1479, 1479, 1479, 1479, 1479, 1480, 1480, 1480, 1480,
        1480, 1480, 1480, 1480, 1480, 1480, 1480, 1480, 1481, 1481, 1481, 1481, 1481, 1481, 1481, 1481,
        1481, 1481, 1481, 1481, 1482, 1482, 1482, 1482, 1482, 1482, 1482, 1482, 1482, 1482, 1482, 1482,
        1482, 1483, 1483, 1483, 1483, 1483, 1483, 1483, 1483, 1483, 1483, 1483, 1483, 1483, 1484, 1484,
        1484, 1484, 1484, 1484, 1484, 1484, 1484, 1484, 1484, 1484, 1484, 1485, 1485, 1485, 1485, 1485,
        1485, 1485, 1485, 1485, 1485, 1485, 1485, 1485, 1485, 1486, 1486, 1486, 1486, 1486, 1486, 1486,
        1486, 1486, 1486, 1486, 1486, 1486, 1486, 1487, 1487, 1487, 1487, 1487, 1487, 1487, 1487, 1487,
        1487, 1487, 1487, 1487, 1487, 1488, 1488, 1488, 1488, 1488, 1488, 1488, 1488, 1488, 1488, 1488,
        1488, 1488, 1488, 1488, 1489, 1489, 1489, 1489, 1489, 1489, 1489, 1489, 1489, 1489, 1489, 1489,
        1489, 1489, 1489, 1490, 1490, 1490, 1490, 1490, 1490, 1490, 1490, 1490, 1490, 1490, 1490, 1490,
        1490, 1490, 1491, 1491, 1491, 1491, 1491, 1491, 1491, 1491, 1491, 1491, 1491, 1491, 1491, 1491,
        1491, 1491, 1492, 1492, 1492, 1492, 1492, 1492, 1492, 1492, 1492, 1492, 1492, 1492, 1492, 1492,
        1492, 1492, 1493, 1493, 1493, 1493, 1493, 1493, 1493, 1493, 1493, 1493, 1493, 1493, 1493, 1493,
        1493, 1493, 1493, 1494, 1494, 1494, 1494, 1494, 1494, 1494, 1494, 1494, 1494, 1494, 1494, 1494,
        1494, 1494, 1494, 1494, 1495, 1495, 1495, 1495, 1495, 1495, 1495, 1495, 1495, 1495, 1495, 1495,
        1495, 1495, 1495, 1495, 1495, 1496, 1496, 1496, 1496, 1496, 1496, 1496, 1496, 1496, 1496, 1496,
        1496, 1496, 1496, 1496, 1496, 1496, 1496, 1497, 1497, 1497, 1497, 1497, 1497, 1497, 1497, 1497,
        1497, 1497, 1497, 1497, 1497, 1497, 1497, 1497, 1497, 1498, 1498, 1498, 1498, 1498, 1498, 1498,
        1498, 1498, 1498, 1498, 1498, 1498, 1498, 1498, 1498, 1498, 1498, 1498, 1499, 1499, 1499, 1499,
        1499, 1499, 1499, 1499, 1499, 1499, 1499, 1499, 1499, 1499, 1499, 1499, 1499, 1499, 1499, 1499,
        1500, 1500, 1500, 1500, 1500, 1500, 1500, 1500, 1500, 1500, 1500, 1500, 1500, 1500, 1500, 1500,
        1500, 1500, 1500, 1500, 1501, 1501, 1501, 1501, 1501, 1501, 1501, 1501, 1501, 1501, 1501, 1501,
        1501, 1501, 1501, 1501, 1501, 1501, 1501, 1501, 1502, 1502, 1502, 1502, 1502, 1502, 1502, 1502,
        1502, 1502, 1502, 1502, 1502, 1502, 1502, 1502, 1502, 1502, 1502, 1502, 1502, 1503, 1503, 1503,
        1503, 1503, 1503, 1503, 1503, 1503, 1503, 1503, 1503, 1503, 1503, 1503, 1503, 1503, 1503, 1503,
        1503, 1503, 1503, 1504, 1504, 1504, 1504, 1504, 1504, 1504, 1504, 1504, 1504, 1504, 1504, 1504,
        1504, 1504, 1504, 1504, 1504, 1504, 1504, 1504, 1504, 1504, 1505, 1505, 1505, 1505, 1505, 1505,
        1505, 1505, 1505, 1505, 1505, 1505, 1505, 1505, 1505, 1505, 1505, 1505, 1505, 1505, 1505, 1505,
        1505, 1506, 1506, 1506, 1506, 1506, 1506, 1506, 1506, 1506, 1506, 1506, 1506, 1506, 1506, 1506,
        1506, 1506, 1506, 1506, 1506, 1506, 1506, 1506, 1506, 1507, 1507, 1507, 1507, 1507, 1507, 1507,
        1507, 1507, 1507, 1507, 1507, 1507, 1507, 1507, 1507, 1507, 1507, 1507, 1507, 1507, 1507, 1507,
        1507, 1508, 1508, 1508, 1508, 1508, 1508, 1508, 1508, 1508, 1508, 1508, 1508, 1508, 1508, 1508,
        1508, 1508, 1508, 1508, 1508, 1508, 1508, 1508, 1508, 1508, 1508, 1509, 1509, 1509, 1509, 1509,
        1509, 1509, 1509, 1509, 1509, 1509, 1509, 1509, 1509, 1509, 1509, 1509, 1509, 1509, 1509, 1509,
        1509, 1509, 1509, 1509, 1509, 1510, 1510, 1510, 1510, 1510, 1510, 1510, 1510, 1510, 1510, 1510,
        1510, 1510, 1510, 1510, 1510, 1510, 1510, 1510, 1510, 1510, 1510, 1510, 1510, 1510, 1510, 1510,
        1511, 1511, 1511, 1511, 1511, 1511, 1511, 1511, 1511, 1511, 1511, 1511, 1511, 1511, 1511, 1511,
        1511, 1511, 1511, 1511, 1511, 1511, 1511, 1511, 1511, 1511, 1511, 1511, 1512, 1512, 1512, 1512,
        1512, 1512, 1512, 1512, 1512, 1512, 1512, 1512, 1512, 1512, 1512, 1512, 1512, 1512, 1512, 1512,
        1512, 1512, 1512, 1512, 1512, 1512, 1512, 1512, 1512, 1513, 1513, 1513, 1513, 1513, 1513, 1513,
        1513, 1513, 1513, 1513, 1513, 1513, 1513, 1513, 1513, 1513, 1513, 1513, 1513, 1513, 1513, 1513,
        1513, 1513, 1513, 1513, 1513, 1513, 1513, 1514, 1514, 1514, 1514, 1514, 1514, 1514, 1514, 1514,
        1514, 1514, 1514, 1514, 1514, 1514, 1514, 1514, 1514, 1514, 1514, 1514, 1514, 1514, 1514, 1514,
        1514, 1514, 1514, 1514, 1514, 1514, 1515, 1515, 1515, 1515, 1515, 1515, 1515, 1515, 1515, 1515,
        1515, 1515, 1515, 1515, 1515, 1515, 1515, 1515, 1515, 1515, 1515, 1515, 1515, 1515, 1515, 1515,
        1515, 1515, 1515, 1515, 1515, 1515, 1516, 1516, 1516, 1516, 1516, 1516, 1516, 1516, 1516, 1516,
        1516, 1516, 1516, 1516, 1516, 1516, 1516, 1516, 1516, 1516, 1516, 1516, 1516, 1516, 1516, 1516,
        1516, 1516, 1516, 1516, 1516, 1516, 1516, 1517, 1517, 1517, 1517, 1517, 1517, 1517, 1517, 1517,
        1517, 1517, 1517, 1517, 1517, 1517, 1517, 1517, 1517, 1517, 1517, 1517, 1517, 1517, 1517, 1517,
        1517, 1517, 1517, 1517, 1517, 1517, 1517, 1517, 1517, 1517, 1518, 1518, 1518, 1518, 1518, 1518,
        1518, 1518, 1518, 1518, 1518, 1518, 1518, 1518, 1518, 1518, 1518, 1518, 1518, 1518, 1518, 1518,
        1518, 1518, 1518, 1518, 1518, 1518, 1518, 1518, 1518, 1518, 1518, 1518, 1518, 1518, 1519, 1519,
        1519, 1519, 1519, 1519, 1519, 1519, 1519, 1519, 1519, 1519, 1519, 1519, 1519, 1519, 1519, 1519,
        1519, 1519, 1519, 1519, 1519, 1519, 1519, 1519, 1519, 1519, 1519, 1519, 1519, 1519, 1519, 1519,
        1519, 1519, 1519, 1520, 1520, 1520, 1520, 1520, 1520, 1520, 1520, 1520, 1520, 1520, 1520, 1520,
        1520, 1520, 1520, 1520, 1520, 1520, 1520, 1520, 1520, 1520, 1520, 1520, 1520, 1520, 1520, 1520,
        1520, 1520, 1520, 1520, 1520, 1520, 1520, 1520, 1520, 1520, 1521, 1521, 1521, 1521, 1521, 1521,
        1521, 1521, 1521, 1521, 1521, 1521, 1521, 1521,
    ]
}

} // verus!
