use vstd::prelude::*;

verus! {

/// Arctangent samples at ratio step `100`: slot `i` holds `atan(i / 10)`
/// in thousandths, rounded to the nearest integer. These cover the
/// nonnegative half of the ratio range; the table for the full range is
/// assembled by mirroring them through the origin.
pub(crate) fn arctangent_samples_tenths_0() -> [u16; 1001] {
    [
        0, 100, 197, 291, 381, 464, 540, 611, 675, 733, 785, 833, 876, 915, 951, 983,
        1012, 1039, 1064, 1086, 1107, 1126, 1144, 1161, 1176, 1190, 1204, 1216, 1228, 1239, 1249, 1259,
        1268, 1277, 1285, 1292, 1300, 1307, 1313, 1320, 1326, 1332, 1337, 1342, 1347, 1352, 1357, 1361,
        1365, 1369, 1373, 1377, 1381, 1384, 1388, 1391, 1394, 1397, 1400, 1403, 1406, 1408, 1411, 1413,
        1416, 1418, 1420, 1423, 1425, 1427, 1429, 1431, 1433, 1435, 1436, 1438, 1440, 1442, 1443, 1445,
        1446, 1448, 1449, 1451, 1452, 1454, 1455, 1456, 1458, 1459, 1460, 1461, 1463, 1464, 1465, 1466,
        1467, 1468, 1469, 1470, 1471, 1472, 1473, 1474, 1475, 1476, 1477, 1478, 1478, 1479, 1480, 1481,
        1482, 1483, 1483, 1484, 1485, 1486, 1486, 1487, 1488, 1488, 1489, 1490, 1490, 1491, 1492, 1492,
        1493, 1493, 1494, 1495, 1495, 1496, 1496, 1497, 1497, 1498, 1498, 1499, 1499, 1500, 1500, 1501,
        1501, 1502, 1502, 1503, 1503, 1504, 1504, 1505, 1505, 1506, 1506, 1506, 1507, 1507, 1508, 1508,
        1508, 1509, 1509, 1510, 1510, 1510, 1511, 1511, 1511, 1512, 1512, 1512, 1513, 1513, 1513, 1514,
        1514, 1514, 1515, 1515, 1515, 1516, 1516, 1516, 1517, 1517, 1517, 1517, 1518, 1518, 1518, 1518,
        1519, 1519, 1519, 1520, 1520, 1520, 1520, 1521, 1521, 1521, 1521, 1522, 1522, 1522, 1522, 1523,
        1523, 1523, 1523, 1523, 1524, 1524, 1524, 1524, 1525, 1525, 1525, 1525, 1525, 1526, 1526, 1526,
        1526, 1526, 1527, 1527, 1527, 1527, 1527, 1528, 1528, 1528, 1528, 1528, 1528, 1529, 1529, 1529,
        1529, 1529, 1529, 1530, 1530, 1530, 1530, 1530, 1530, 1531, 1531, 1531, 1531, 1531, 1531, 1532,
        1532, 1532, 1532, 1532, 1532, 1533, 1533, 1533, 1533, 1533, 1533, 1533, 1534, 1534, 1534, 1534,
        1534, 1534, 1534, 1534, 1535, 1535, 1535, 1535, 1535, 1535, 1535, 1535, 1536, 1536, 1536, 1536,
        1536, 1536, 1536, 1536, 1537, 1537, 1537, 1537, 1537, 1537, 1537, 1537, 1537, 1538, 1538, 1538,
        1538, 1538, 1538, 1538, 1538, 1538, 1539, 1539, 1539, 1539, 1539, 1539, 1539, 1539, 1539, 1539,
        1540, 1540, 1540, 1540, 1540, 1540, 1540, 1540, 1540, 1540, 1541, 1541, 1541, 1541, 1541, 1541,
        1541, 1541, 1541, 1541, 1541, 1541, 1542, 1542, 1542, 1542, 1542, 1542, 1542, 1542, 1542, 1542,
        1542, 1542, 1543, 1543, 1543, 1543, 1543, 1543, 1543, 1543, 1543, 1543, 1543, 1543, 1543, 1544,
        1544, 1544, 1544, 1544, 1544, 1544, 1544, 1544, 1544, 1544, 1544, 1544, 1544, 1545, 1545, 1545,
        1545, 1545, 1545, 1545, 1545, 1545, 1545, 1545, 1545, 1545, 1545, 1545, 1546, 1546, 1546, 1546,
        1546, 1546, 1546, 1546, 1546, 1546, 1546, 1546, 1546, 1546, 1546, 1546, 1547, 1547, 1547, 1547,
        1547, 1547, 1547, 1547, 1547, 1547, 1547, 1547, 1547, 1547, 1547, 1547, 1547, 1547, 1548, 1548,
        1548, 1548, 1548, 1548, 1548, 1548, 1548, 1548, 1548, 1548, 1548, 1548, 1548, 1548, 1548, 1548,
        1548, 1549, 1549, 1549, 1549, 1549, 1549, 1549, 1549, 1549, 1549, 1549, 1549, 1549, 1549, 1549,
        1549, 1549, 1549, 1549, 1549, 1549, 1550, 1550, 1550, 1550, 1550, 1550, 1550, 1550, 1550, 1550,
        1550, 1550, 1550, 1550, 1550, 1550, 1550, 1550, 1550, 1550, 1550, 1550, 1550, 1551, 1551, 1551,
        1551, 1551, 1551, 1551, 1551, 1551, 1551, 1551, 1551, 1551, 1551, 1551, 1551, 1551, 1551, 1551,
        1551, 1551, 1551, 1551, 1551, 1551, 1551, 1552, 1552, 1552, 1552, 1552, 1552, 1552, 1552, 1552,
        1552, 1552, 1552, 1552, 1552, 1552, 1552, 1552, 1552, 1552, 1552, 1552, 1552, 1552, 1552, 1552,
        1552, 1552, 1552, 1553, 1553, 1553, 1553, 1553, 1553, 1553, 1553, 1553, 1553, 1553, 1553, 1553,
        1553, 1553, 1553, 1553, 1553, 1553, 1553, 1553, 1553, 1553, 1553, 1553, 1553, 1553, 1553, 1553,
        1553, 1553, 1553, 1554, 1554, 1554, 1554, 1554, 1554, 1554, 1554, 1554, 1554, 1554, 1554, 1554,
        1554, 1554, 1554, 1554, 1554, 1554, 1554, 1554, 1554, 1554, 1554, 1554, 1554, 1554, 1554, 1554,
        1554, 1554, 1554, 1554, 1554, 1554, 1555, 1555, 1555, 1555, 1555, 1555, 1555, 1555, 1555, 1555,
        1555, 1555, 1555, 1555, 1555, 1555, 1555, 1555, 1555, 1555, 1555, 1555, 1555, 1555, 1555, 1555,
        1555, 1555, 1555, 1555, 1555, 1555, 1555, 1555, 1555, 1555, 1555, 1555, 1555, 1555, 1556, 1556,
        1556, 1556, 1556, 1556, 1556, 1556, 1556, 1556, 1556, 1556, 1556, 1556, 1556, 1556, 1556, 1556,
        1556, 1556, 1556, 1556, 1556, 1556, 1556, 1556, 1556, 1556, 1556, 1556, 1556, 1556, 1556, 1556,
        1556, 1556, 1556, 1556, 1556, 1556, 1556, 1556, 1556, 1556, 1556, 1556, 1557, 1557, 1557, 1557,
        1557, 1557, 1557, 1557, 1557, 1557, 1557, 1557, 1557, 1557, 1557, 1557, 1557, 1557, 1557, 1557,
        1557, 1557, 1557, 1557, 1557, 1557, 1557, 1557, 1557, 1557, 1557, 1557, 1557, 1557, 1557, 1557,
        1557, 1557, 1557, 1557, 1557, 1557, 1557, 1557, 1557, 1557, 1557, 1557, 1557, 1557, 1557, 1557,
        1557, 1558, 1558, 1558, 1558, 1558, 1558, 1558, 1558, 1558, 1558, 1558, 1558, 1558, 1558, 1558,
        1558, 1558, 1558, 1558, 1558, 1558, 1558, 1558, 1558, 1558, 1558, 1558, 1558, 1558, 1558, 1558,
        1558, 1558, 1558, 1558, 1558, 1558, 1558, 1558, 1558, 1558, 1558, 1558, 1558, 1558, 1558, 1558,
        1558, 1558, 1558, 1558, 1558, 1558, 1558, 1558, 1558, 1558, 1558, 1558, 1558, 1558, 1559, 1559,
        1559, 1559, 1559, 1559, 1559, 1559, 1559, 1559, 1559, 1559, 1559, 1559, 1559, 1559, 1559, 1559,
        1559, 1559, 1559, 1559, 1559, 1559, 1559, 1559, 1559, 1559, 1559, 1559, 1559, 1559, 1559, 1559,
        1559, 1559, 1559, 1559, 1559, 1559, 1559, 1559, 1559, 1559, 1559, 1559, 1559, 1559, 1559, 1559,
        1559, 1559, 1559, 1559, 1559, 1559, 1559, 1559, 1559, 1559, 1559, 1559, 1559, 1559, 1559, 1559,
        1559, 1559, 1559, 1559, 1559, 1559, 1560, 1560, 1560, 1560, 1560, 1560, 1560, 1560, 1560, 1560,
        1560, 1560, 1560, 1560, 1560, 1560, 1560, 1560, 1560, 1560, 1560, 1560, 1560, 1560, 1560, 1560,
        1560, 1560, 1560, 1560, 1560, 1560, 1560, 1560, 1560, 1560, 1560, 1560, 1560, 1560, 1560, 1560,
        1560, 1560, 1560, 1560, 1560, 1560, 1560, 1560, 1560, 1560, 1560, 1560, 1560, 1560, 1560, 1560,
        1560, 1560, 1560, 1560, 1560, 1560, 1560, 1560, 1560, 1560, 1560, 1560, 1560, 1560, 1560, 1560,
        1560, 1560, 1560, 1560, 1560, 1560, 1560, 1560, 1560, 1560, 1560, 1560, 1561, 1561, 1561, 1561,
        1561, 1561, 1561, 1561, 1561, 1561, 1561, 1561, 1561, 1561, 1561, 1561, 1561, 1561, 1561, 1561,
        1561, 1561, 1561, 1561, 1561, 1561, 1561, 1561, 1561,
    ]
}

} // verus!
